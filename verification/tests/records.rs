use bridge_core::error::RoundLoaderError;
use bridge_core::state::{
    pack_symbol, Deposit, DepositToken, DepositTokenEventWithLen, DepositTokenMetaWithLen,
    Settings, TokenKind, WithdrawalTokenEventWithLen, WithdrawalTokenMetaWithLen,
    WithdrawalTokenStatus, DEPOSIT_TOKEN_EVENT_LEN, RECORD_LEN, SETTINGS_LEN,
    WITHDRAWAL_TOKEN_EVENT_LEN, WITHDRAWAL_TOKEN_META_LEN,
};
use bridge_core::types::{EverAddress, MsgAddrStd, Pubkey, UInt256, Vote, PUBKEY_BYTES};

fn pubkey(n: u8) -> Pubkey {
    Pubkey::new_from_array([n; 32])
}

fn address(n: u8) -> EverAddress {
    EverAddress::AddrStd(MsgAddrStd { workchain_id: -1, address: [n; 32] })
}

#[test]
fn record_lengths() {
    assert_eq!(PUBKEY_BYTES, 32);
    assert_eq!(WITHDRAWAL_TOKEN_EVENT_LEN, 74);
    assert_eq!(WITHDRAWAL_TOKEN_META_LEN, 41);
    assert_eq!(DEPOSIT_TOKEN_EVENT_LEN, 108);
    assert_eq!(SETTINGS_LEN, 500);
    assert_eq!(RECORD_LEN, 5000);
}

#[test]
fn symbol_is_packed_with_its_length_in_front() {
    assert_eq!(
        pack_symbol(&String::from("USDT")),
        Ok(vec![4, 0, 0, 0, b'U', b'S', b'D', b'T'])
    );
    assert_eq!(pack_symbol(&String::new()), Ok(vec![0, 0, 0, 0]));
}

#[test]
fn symbol_length_counts_bytes_not_characters() {
    let packed = pack_symbol(&String::from("é€")).unwrap();
    assert_eq!(packed, vec![5, 0, 0, 0, 0xC3, 0xA9, 0xE2, 0x82, 0xAC]);
    let long = "x".repeat(300);
    let packed_long = pack_symbol(&long).unwrap();
    assert_eq!(packed_long.len(), 304);
    assert_eq!(&packed_long[0..4], &[44, 1, 0, 0]);
}

#[test]
fn deposit_meta_length_is_that_of_the_packed_symbol() {
    let meta = DepositTokenMetaWithLen::new(String::from("USDT")).unwrap();
    assert_eq!(meta.len, 8);
    assert_eq!(meta.data.token_symbol, "USDT");
    let empty = DepositTokenMetaWithLen::new(String::new()).unwrap();
    assert_eq!(empty.len, 4);
    let wide = DepositTokenMetaWithLen::new(String::from("é€")).unwrap();
    assert_eq!(wide.len, 9);
}

#[test]
fn deposit_event_has_its_fixed_length() {
    let event = DepositTokenEventWithLen::new(pubkey(1), 77, address(2), address(3));
    assert_eq!(event.len, 108);
    assert_eq!(event.data.sender_address, pubkey(1));
    assert_eq!(event.data.amount, 77);
    assert!(matches!(
        event.data.recipient_address,
        EverAddress::AddrStd(MsgAddrStd { workchain_id: -1, address }) if address == [2; 32]
    ));
    assert!(matches!(
        event.data.configuration,
        EverAddress::AddrStd(MsgAddrStd { workchain_id: -1, address }) if address == [3; 32]
    ));
}

#[test]
fn withdrawal_event_length_adds_the_packed_symbol() {
    let event =
        WithdrawalTokenEventWithLen::new(address(1), 5, pubkey(2), String::from("USDT")).unwrap();
    assert_eq!(event.len, 82);
    assert_eq!(event.data.amount, 5);
    assert_eq!(event.data.recipient_address, pubkey(2));
    assert_eq!(event.data.token_symbol, "USDT");
    let bare = WithdrawalTokenEventWithLen::new(address(1), 5, pubkey(2), String::new()).unwrap();
    assert_eq!(bare.len, 78);
}

#[test]
fn withdrawal_meta_has_its_fixed_length() {
    let meta = WithdrawalTokenMetaWithLen::new(pubkey(9), WithdrawalTokenStatus::Pending, 12);
    assert_eq!(meta.len, 41);
    assert_eq!(meta.data.author, pubkey(9));
    assert_eq!(meta.data.status, WithdrawalTokenStatus::Pending);
    assert_eq!(meta.data.bounty, 12);
}

#[test]
fn records_report_whether_they_are_initialized() {
    let deposit = Deposit { is_initialized: true, event: vec![1], meta: vec![2] };
    assert!(deposit.is_initialized());
    let blank = Deposit { is_initialized: false, event: Vec::new(), meta: Vec::new() };
    assert!(!blank.is_initialized());
    let record = DepositToken {
        is_initialized: false,
        event: DepositTokenEventWithLen::new(pubkey(1), 1, address(2), address(3)),
        meta: DepositTokenMetaWithLen::new(String::from("A")).unwrap(),
    };
    assert!(!record.is_initialized());
    let mut settings = Settings::new(TokenKind::Ever { mint: pubkey(1) }, pubkey(2), 1, 2, 3, 4);
    assert!(settings.is_initialized());
    settings.is_initialized = false;
    assert!(!settings.is_initialized());
}

#[test]
fn new_settings_start_an_empty_window() {
    let settings = Settings::new(
        TokenKind::Solana { mint: pubkey(1), vault: pubkey(3) },
        pubkey(2),
        10,
        20,
        30,
        40,
    );
    assert_eq!(settings.admin, pubkey(2));
    assert!(!settings.emergency);
    assert_eq!(settings.deposit_limit, 10);
    assert_eq!(settings.withdrawal_limit, 20);
    assert_eq!(settings.withdrawal_daily_limit, 30);
    assert_eq!(settings.withdrawal_daily_amount, 0);
    assert_eq!(settings.withdrawal_window_start, 40);
    assert_eq!(settings.kind.mint(), pubkey(1));
    assert_eq!(settings.kind.vault(), Some(pubkey(3)));
}

#[test]
fn token_kinds_are_told_apart() {
    let wrapped = TokenKind::Ever { mint: pubkey(1) };
    let native = TokenKind::Solana { mint: pubkey(2), vault: pubkey(3) };
    assert!(wrapped.is_ever());
    assert!(!wrapped.is_solana());
    assert!(native.is_solana());
    assert!(!native.is_ever());
    assert_eq!(wrapped.mint(), pubkey(1));
    assert_eq!(wrapped.vault(), None);
    assert_eq!(native.mint(), pubkey(2));
    assert_eq!(native.vault(), Some(pubkey(3)));
    assert_eq!(wrapped, TokenKind::Ever { mint: pubkey(1) });
    assert_ne!(wrapped, TokenKind::Ever { mint: pubkey(2) });
    assert_eq!(native, TokenKind::Solana { mint: pubkey(2), vault: pubkey(3) });
    assert_ne!(native, TokenKind::Solana { mint: pubkey(2), vault: pubkey(4) });
    assert_ne!(native, TokenKind::Solana { mint: pubkey(9), vault: pubkey(3) });
    assert_ne!(wrapped, TokenKind::Solana { mint: pubkey(1), vault: pubkey(1) });
}

#[test]
fn identities_are_equal_when_all_bytes_agree() {
    let mut bytes: [u8; 32] = [7; 32];
    let a = Pubkey::new_from_array(bytes);
    assert_eq!(a, pubkey(7));
    assert_eq!(a.to_bytes(), [7; 32]);
    bytes[31] = 8;
    assert_ne!(Pubkey::new_from_array(bytes), a);
    bytes[31] = 7;
    bytes[0] = 0;
    assert_ne!(Pubkey::new_from_array(bytes), a);
}

#[test]
fn uint256_keeps_its_bytes() {
    let mut bytes: [u8; 32] = [0; 32];
    bytes[0] = 1;
    bytes[31] = 255;
    let value = UInt256::from(bytes);
    assert_eq!(value.as_slice(), &bytes);
    assert_eq!(value, UInt256::from(bytes));
    assert_ne!(value, UInt256::from([0u8; 32]));
}

#[test]
fn votes_are_three_distinct_values() {
    assert_ne!(Vote::NotVoted, Vote::Confirm);
    assert_ne!(Vote::Confirm, Vote::Reject);
    assert_ne!(Vote::Reject, Vote::NotVoted);
}

#[test]
fn error_codes_count_from_zero() {
    let all = [
        RoundLoaderError::InvalidRelay,
        RoundLoaderError::InvalidRelayRound,
        RoundLoaderError::RelayAlreadyVoted,
        RoundLoaderError::RelayRoundExpired,
        RoundLoaderError::AlreadyInitialized,
        RoundLoaderError::InvalidChunkOffset,
        RoundLoaderError::IncompleteProposal,
        RoundLoaderError::EmergencyModeActive,
        RoundLoaderError::DepositLimitExceeded,
        RoundLoaderError::WithdrawalLimitExceeded,
        RoundLoaderError::DailyLimitExceeded,
        RoundLoaderError::Unauthorized,
        RoundLoaderError::AlreadyExecuted,
    ];
    let mut expected: u32 = 0;
    for error in all {
        assert_eq!(error.code(), expected);
        assert_eq!(RoundLoaderError::from_code(expected), Some(error));
        expected += 1;
    }
    assert_eq!(RoundLoaderError::from_code(13), None);
    assert_eq!(RoundLoaderError::from_code(u32::MAX), None);
}

#[test]
fn error_messages() {
    assert_eq!(
        RoundLoaderError::InvalidRelay.message(),
        "Relay not in the current round"
    );
    assert_eq!(
        RoundLoaderError::InvalidRelayRound.message(),
        "Invalid relay round"
    );
    assert_eq!(
        RoundLoaderError::RelayAlreadyVoted.message(),
        "Relay already voted for proposal"
    );
    assert_eq!(
        RoundLoaderError::RelayRoundExpired.message(),
        "Relay round expired"
    );
    assert_eq!(
        RoundLoaderError::EmergencyModeActive.message(),
        "Emergency mode is active"
    );
}
