//! The records of the token proxy: settings of an asset, deposits, and the
//! events and bookkeeping of deposits and withdrawals.

use vstd::prelude::*;
use vstd::bytes::spec_u32_to_le_bytes;
use vstd::std_specs::cmp::PartialEqSpecImpl;
use vstd::utf8::encode_utf8;
use borsh::BorshSerialize;
use crate::packing::{
    deposit_event_bytes, exact_withdrawal_payload, lemma_deposit_event_len,
    lemma_withdrawal_event_len, withdrawal_event_bytes, withdrawal_payload,
};
use crate::types::{EverAddress, Pubkey, PUBKEY_BYTES};

verus! {

/// The length of the window over which withdrawals are summed, in seconds.
pub const WITHDRAWAL_TOKEN_PERIOD: i64 = 86400;

/// The largest packed size of a settings record.
pub const SETTINGS_LEN: usize = 500;

/// The largest packed size of a deposit or withdrawal record.
pub const RECORD_LEN: usize = 5000;

/// The bytes of a withdrawal event apart from its token symbol: the sender's
/// address, the amount and the recipient.
pub const WITHDRAWAL_TOKEN_EVENT_LEN: usize = PUBKEY_BYTES + 1 + 1 + 8 + PUBKEY_BYTES;

/// The bytes of the bookkeeping of a withdrawal: author, status and bounty.
pub const WITHDRAWAL_TOKEN_META_LEN: usize = PUBKEY_BYTES + 1 + 8;

/// The bytes of a deposit event: the sender, the amount, the recipient's
/// address and the address of the configuration.
pub const DEPOSIT_TOKEN_EVENT_LEN: usize = PUBKEY_BYTES + 8 + PUBKEY_BYTES + 1 + 1 + PUBKEY_BYTES
    + 1 + 1;

/// Why a record could not be made.
#[derive(Clone, Copy, Debug, PartialEq, Eq, Structural)]
pub enum PackError {
    /// The token symbol is so long that the record's length does not fit 32 bits.
    SymbolTooLong,
}

/// The error type of std's `io`, in which borsh reports a failure. The
/// library only tells it from success; nothing is claimed about its content.
#[verifier::external_type_specification]
#[verifier::external_body]
pub struct ExIoError(std::io::Error);

/// The bytes that stand for a string in a record: the number of its UTF-8
/// bytes as 32 bits, little-endian, then those bytes.
pub open spec fn string_bytes(s: Seq<char>) -> Seq<u8> {
    spec_u32_to_le_bytes(encode_utf8(s).len() as u32) + encode_utf8(s)
}

/// The number of bytes that stand for a string in a record.
pub open spec fn string_len(s: Seq<char>) -> nat {
    4 + encode_utf8(s).len()
}

/// `try_to_vec` of borsh's `BorshSerialize`, for a `String`. Trusted: the
/// call fails exactly when the string has more UTF-8 bytes than 32 bits can
/// count, and otherwise returns that count, little-endian in four bytes,
/// followed by the UTF-8 bytes.
#[verifier::external_body]
fn string_try_to_vec(s: &String) -> (bytes: Result<Vec<u8>, std::io::Error>)
    ensures
        bytes is Ok <==> encode_utf8(s@).len() <= u32::MAX,
        bytes matches Ok(b) ==> b@ == string_bytes(s@),
{
    s.try_to_vec()
}

/// The bytes that stand for `symbol` in a record, as `string_bytes` gives
/// them; `SymbolTooLong` where the symbol has more UTF-8 bytes than 32 bits
/// can count.
pub fn pack_symbol(symbol: &String) -> (bytes: Result<Vec<u8>, PackError>)
    ensures
        bytes is Ok <==> encode_utf8(symbol@).len() <= u32::MAX,
        bytes matches Ok(b) ==> b@ == string_bytes(symbol@) && b@.len() == string_len(symbol@),
        bytes matches Err(e) ==> e == PackError::SymbolTooLong,
{
    match string_try_to_vec(symbol) {
        Ok(bytes) => {
            proof {
                vstd::bytes::lemma_auto_spec_u32_to_from_le_bytes();
            }
            Ok(bytes)
        },
        Err(_) => Err(PackError::SymbolTooLong),
    }
}

/// Whether an asset is issued on the other ledger or on this one.
#[derive(Clone, Copy, Debug)]
pub enum TokenKind {
    /// Issued on the other ledger: this ledger mints and burns `mint`.
    Ever { mint: Pubkey },
    /// Issued on this ledger: deposits are held in `vault`.
    Solana { mint: Pubkey, vault: Pubkey },
}

impl PartialEq for TokenKind {
    fn eq(&self, other: &TokenKind) -> (same: bool) {
        match (self, other) {
            (TokenKind::Ever { mint: a }, TokenKind::Ever { mint: b }) => *a == *b,
            (
                TokenKind::Solana { mint: a, vault: v },
                TokenKind::Solana { mint: b, vault: w },
            ) => *a == *b && *v == *w,
            _ => false,
        }
    }
}

impl Eq for TokenKind {

}

impl PartialEqSpecImpl for TokenKind {
    open spec fn obeys_eq_spec() -> bool {
        true
    }

    open spec fn eq_spec(&self, other: &TokenKind) -> bool {
        *self == *other
    }
}

impl TokenKind {
    /// The mint of the asset.
    pub fn mint(&self) -> (mint: Pubkey)
        ensures
            mint == match *self {
                TokenKind::Ever { mint } => mint,
                TokenKind::Solana { mint, vault } => mint,
            },
    {
        match self {
            TokenKind::Ever { mint } => *mint,
            TokenKind::Solana { mint, vault: _ } => *mint,
        }
    }

    /// The vault of an asset that is issued on this ledger.
    pub fn vault(&self) -> (vault: Option<Pubkey>)
        ensures
            vault == match *self {
                TokenKind::Ever { mint } => None::<Pubkey>,
                TokenKind::Solana { mint, vault } => Some(vault),
            },
    {
        match self {
            TokenKind::Ever { mint: _ } => None,
            TokenKind::Solana { mint: _, vault } => Some(*vault),
        }
    }

    /// Whether the asset is issued on the other ledger.
    pub fn is_ever(&self) -> (yes: bool)
        ensures
            yes == (*self is Ever),
    {
        match self {
            TokenKind::Ever { mint: _ } => true,
            TokenKind::Solana { mint: _, vault: _ } => false,
        }
    }

    /// Whether the asset is issued on this ledger.
    pub fn is_solana(&self) -> (yes: bool)
        ensures
            yes == (*self is Solana),
    {
        !self.is_ever()
    }
}

/// Where a withdrawal request stands.
#[derive(Clone, Copy, Debug, PartialEq, Eq, Structural)]
pub enum WithdrawalTokenStatus {
    New,
    Processed,
    Cancelled,
    Pending,
    WaitingForApprove,
    WaitingForRelease,
}

/// The settings of one asset: its kind, its administrator, its own emergency
/// switch, the caps, and the running total of the current withdrawal window.
#[derive(Clone, Copy, Debug)]
pub struct Settings {
    pub is_initialized: bool,
    pub kind: TokenKind,
    pub admin: Pubkey,
    pub emergency: bool,
    pub deposit_limit: u64,
    pub withdrawal_limit: u64,
    pub withdrawal_daily_limit: u64,
    pub withdrawal_daily_amount: u64,
    pub withdrawal_window_start: i64,
}

impl Settings {
    /// The settings of a newly listed asset: no emergency, nothing withdrawn,
    /// the window starting at `now`.
    pub fn new(
        kind: TokenKind,
        admin: Pubkey,
        deposit_limit: u64,
        withdrawal_limit: u64,
        withdrawal_daily_limit: u64,
        now: i64,
    ) -> (settings: Settings)
        ensures
            settings == (Settings {
                is_initialized: true,
                kind,
                admin,
                emergency: false,
                deposit_limit,
                withdrawal_limit,
                withdrawal_daily_limit,
                withdrawal_daily_amount: 0,
                withdrawal_window_start: now,
            }),
    {
        Settings {
            is_initialized: true,
            kind,
            admin,
            emergency: false,
            deposit_limit,
            withdrawal_limit,
            withdrawal_daily_limit,
            withdrawal_daily_amount: 0,
            withdrawal_window_start: now,
        }
    }

    /// Whether the record is in use.
    pub fn is_initialized(&self) -> (yes: bool)
        ensures
            yes == self.is_initialized,
    {
        self.is_initialized
    }
}

/// A deposit as stored bytes: the packed event and the packed bookkeeping.
#[derive(Debug)]
pub struct Deposit {
    pub is_initialized: bool,
    pub event: Vec<u8>,
    pub meta: Vec<u8>,
}

impl Deposit {
    /// Whether the record is in use.
    pub fn is_initialized(&self) -> (yes: bool)
        ensures
            yes == self.is_initialized,
    {
        self.is_initialized
    }
}

/// What a deposit says: who sent how much to whom.
#[derive(Debug)]
pub struct DepositTokenEvent {
    pub sender_address: Pubkey,
    pub amount: u64,
    pub recipient_address: EverAddress,
    pub configuration: EverAddress,
}

/// A deposit event with its packed length.
#[derive(Debug)]
pub struct DepositTokenEventWithLen {
    pub len: u32,
    pub data: DepositTokenEvent,
}

impl DepositTokenEventWithLen {
    /// The event of a deposit. Its length is the number of bytes that its
    /// four fields take when packed, which is the same for every deposit.
    pub fn new(
        sender_address: Pubkey,
        amount: u64,
        recipient_address: EverAddress,
        configuration: EverAddress,
    ) -> (event: DepositTokenEventWithLen)
        ensures
            event.len == deposit_event_bytes(event.data).len(),
            event.len == DEPOSIT_TOKEN_EVENT_LEN,
            event.data.sender_address == sender_address,
            event.data.amount == amount,
            event.data.recipient_address == recipient_address,
            event.data.configuration == configuration,
    {
        let data = DepositTokenEvent { sender_address, amount, recipient_address, configuration };
        proof {
            lemma_deposit_event_len(data);
        }
        DepositTokenEventWithLen { len: DEPOSIT_TOKEN_EVENT_LEN as u32, data }
    }
}

/// The asset of a deposit.
#[derive(Debug)]
pub struct DepositTokenMeta {
    pub token_symbol: String,
}

/// The asset of a deposit with its packed length.
#[derive(Debug)]
pub struct DepositTokenMetaWithLen {
    pub len: u32,
    pub data: DepositTokenMeta,
}

impl DepositTokenMetaWithLen {
    /// The bookkeeping of a deposit of the asset `token_symbol`. Its length
    /// is that of the packed symbol. `SymbolTooLong` where that does not fit
    /// 32 bits.
    pub fn new(token_symbol: String) -> (meta: Result<DepositTokenMetaWithLen, PackError>)
        ensures
            meta is Ok <==> string_len(token_symbol@) <= u32::MAX,
            meta matches Ok(m) ==> m.len == string_len(token_symbol@) && m.data.token_symbol@
                == token_symbol@,
            meta matches Err(e) ==> e == PackError::SymbolTooLong,
    {
        let packed = match pack_symbol(&token_symbol) {
            Ok(bytes) => bytes,
            Err(e) => {
                return Err(e);
            },
        };
        if packed.len() > u32::MAX as usize {
            return Err(PackError::SymbolTooLong);
        }
        Ok(
            DepositTokenMetaWithLen {
                len: packed.len() as u32,
                data: DepositTokenMeta { token_symbol },
            },
        )
    }
}

/// A deposit: its event and its asset.
#[derive(Debug)]
pub struct DepositToken {
    pub is_initialized: bool,
    pub event: DepositTokenEventWithLen,
    pub meta: DepositTokenMetaWithLen,
}

impl DepositToken {
    /// Whether the record is in use.
    pub fn is_initialized(&self) -> (yes: bool)
        ensures
            yes == self.is_initialized,
    {
        self.is_initialized
    }
}

/// What a withdrawal asks for: who on the other ledger sends how much of
/// which asset to whom.
#[derive(Debug)]
pub struct WithdrawalTokenEvent {
    pub sender_address: EverAddress,
    pub amount: u64,
    pub recipient_address: Pubkey,
    pub token_symbol: String,
}

/// A withdrawal event with its packed length.
#[derive(Debug)]
pub struct WithdrawalTokenEventWithLen {
    pub len: u32,
    pub data: WithdrawalTokenEvent,
}

impl WithdrawalTokenEventWithLen {
    /// The event of a withdrawal. Its length is the number of bytes that its
    /// fields take when packed: those of the fixed fields and those of the
    /// packed symbol. `SymbolTooLong` where that does not fit 32 bits.
    pub fn new(
        sender_address: EverAddress,
        amount: u64,
        recipient_address: Pubkey,
        token_symbol: String,
    ) -> (event: Result<WithdrawalTokenEventWithLen, PackError>)
        ensures
            event is Ok <==> WITHDRAWAL_TOKEN_EVENT_LEN + string_len(token_symbol@) <= u32::MAX,
            event matches Ok(e) ==> {
                &&& e.len == withdrawal_event_bytes(e.data@).len()
                &&& withdrawal_payload(e) == exact_withdrawal_payload(e.data@)
                &&& e.len == WITHDRAWAL_TOKEN_EVENT_LEN + string_len(token_symbol@)
                &&& e.data.sender_address == sender_address
                &&& e.data.amount == amount
                &&& e.data.recipient_address == recipient_address
                &&& e.data.token_symbol@ == token_symbol@
            },
            event matches Err(e) ==> e == PackError::SymbolTooLong,
    {
        let packed = match pack_symbol(&token_symbol) {
            Ok(bytes) => bytes,
            Err(e) => {
                return Err(e);
            },
        };
        if packed.len() > u32::MAX as usize - WITHDRAWAL_TOKEN_EVENT_LEN {
            return Err(PackError::SymbolTooLong);
        }
        let data = WithdrawalTokenEvent { sender_address, amount, recipient_address, token_symbol };
        proof {
            lemma_withdrawal_event_len(data@);
        }
        Ok(WithdrawalTokenEventWithLen { len: (WITHDRAWAL_TOKEN_EVENT_LEN + packed.len()) as u32, data })
    }
}

/// The bookkeeping of a withdrawal: who asked, where it stands, and the
/// bounty offered for executing it.
#[derive(Debug)]
pub struct WithdrawalTokenMeta {
    pub author: Pubkey,
    pub status: WithdrawalTokenStatus,
    pub bounty: u64,
}

/// The bookkeeping of a withdrawal with its packed length.
#[derive(Debug)]
pub struct WithdrawalTokenMetaWithLen {
    pub len: u32,
    pub data: WithdrawalTokenMeta,
}

impl WithdrawalTokenMetaWithLen {
    /// The bookkeeping of a withdrawal, with its fixed length.
    pub fn new(author: Pubkey, status: WithdrawalTokenStatus, bounty: u64) -> (meta:
        WithdrawalTokenMetaWithLen)
        ensures
            meta.len == WITHDRAWAL_TOKEN_META_LEN,
            meta.data.author == author,
            meta.data.status == status,
            meta.data.bounty == bounty,
    {
        WithdrawalTokenMetaWithLen {
            len: WITHDRAWAL_TOKEN_META_LEN as u32,
            data: WithdrawalTokenMeta { author, status, bounty },
        }
    }
}

} // verus!
