//! The byte format of deposit and withdrawal events.
//!
//! An event is stored as a 32-bit little-endian length and then its fields in
//! the order of declaration: an identity as its 32 bytes, an amount as 64
//! bits little-endian, an address as a zero byte, the workchain as one byte
//! and the 32 bytes of the account, and a token symbol as the number of its
//! UTF-8 bytes in 32 bits little-endian followed by those bytes. The length
//! in front counts the bytes of the fields, so that a reader can tell from
//! the first four bytes how many more belong to the event.

use vstd::prelude::*;
use vstd::bytes::{
    lemma_auto_spec_u32_to_from_le_bytes, lemma_auto_spec_u64_to_from_le_bytes,
    spec_u32_to_le_bytes, spec_u64_from_le_bytes, spec_u64_to_le_bytes, u32_to_le_bytes,
    u64_to_le_bytes,
};
use vstd::utf8::{encode_utf8, encode_utf8_decode_utf8};
use crate::chunk::{
    all_fit, covered, is_permutation, law_chunk_order_is_irrelevant,
    law_covering_chunks_assemble_payload, law_missing_byte_means_incomplete, pairwise_apart,
    payload_spec, rearranged, write_all, AssemblerView, Chunk,
};
use crate::state::{
    pack_symbol, string_bytes, string_len, DepositTokenEvent, DepositTokenEventWithLen, PackError,
    WithdrawalTokenEvent, WithdrawalTokenEventWithLen, DEPOSIT_TOKEN_EVENT_LEN,
    WITHDRAWAL_TOKEN_EVENT_LEN,
};
use crate::types::{lemma_pubkey_view_injective, EverAddress, Pubkey};

verus! {

/// The byte that stands for a workchain: its number in two's complement.
pub open spec fn workchain_byte(workchain_id: i8) -> u8 {
    if workchain_id >= 0 {
        workchain_id as u8
    } else {
        (workchain_id + 256) as u8
    }
}

/// The 34 bytes of an address: the tag of its one kind, the workchain, the account.
pub open spec fn address_bytes(address: EverAddress) -> Seq<u8> {
    match address {
        EverAddress::AddrStd(std) => seq![0u8, workchain_byte(std.workchain_id)] + std.address@,
    }
}

/// The bytes of the fields of a deposit event.
pub open spec fn deposit_event_bytes(event: DepositTokenEvent) -> Seq<u8> {
    event.sender_address@ + spec_u64_to_le_bytes(event.amount) + address_bytes(
        event.recipient_address,
    ) + address_bytes(event.configuration)
}

/// The stored form of a deposit event: its length field, then its fields.
pub open spec fn deposit_payload(event: DepositTokenEventWithLen) -> Seq<u8> {
    spec_u32_to_le_bytes(event.len) + deposit_event_bytes(event.data)
}

/// A withdrawal event as plain values.
pub ghost struct WithdrawalEventView {
    pub sender_address: EverAddress,
    pub amount: u64,
    pub recipient_address: Pubkey,
    pub token_symbol: Seq<char>,
}

impl View for WithdrawalTokenEvent {
    type V = WithdrawalEventView;

    open spec fn view(&self) -> WithdrawalEventView {
        WithdrawalEventView {
            sender_address: self.sender_address,
            amount: self.amount,
            recipient_address: self.recipient_address,
            token_symbol: self.token_symbol@,
        }
    }
}

/// The bytes of the fields of a withdrawal event.
pub open spec fn withdrawal_event_bytes(event: WithdrawalEventView) -> Seq<u8> {
    address_bytes(event.sender_address) + spec_u64_to_le_bytes(event.amount)
        + event.recipient_address@ + string_bytes(event.token_symbol)
}

/// The stored form of a withdrawal event: its length field, then its fields.
pub open spec fn withdrawal_payload(event: WithdrawalTokenEventWithLen) -> Seq<u8> {
    spec_u32_to_le_bytes(event.len) + withdrawal_event_bytes(event.data@)
}

/// The payload of a withdrawal event whose length field is exact.
pub open spec fn exact_withdrawal_payload(event: WithdrawalEventView) -> Seq<u8> {
    spec_u32_to_le_bytes(withdrawal_event_bytes(event).len() as u32) + withdrawal_event_bytes(
        event,
    )
}

/// `payload` is the payload of `event` with an exact length field.
pub open spec fn is_withdrawal_payload(payload: Seq<u8>, event: WithdrawalEventView) -> bool {
    withdrawal_event_bytes(event).len() <= u32::MAX && payload == exact_withdrawal_payload(event)
}

/// The withdrawal event that `payload` stands for, if there is one.
pub open spec fn decode_withdrawal_spec(payload: Seq<u8>) -> Option<WithdrawalEventView> {
    if exists|event: WithdrawalEventView| is_withdrawal_payload(payload, event) {
        Some(choose|event: WithdrawalEventView| is_withdrawal_payload(payload, event))
    } else {
        None
    }
}

/// An address takes 34 bytes.
pub proof fn lemma_address_len(address: EverAddress)
    ensures
        address_bytes(address).len() == 34,
{
}

/// Different addresses have different bytes.
pub proof fn lemma_address_bytes_are_injective(a: EverAddress, b: EverAddress)
    requires
        address_bytes(a) == address_bytes(b),
    ensures
        a == b,
{
    let x = a->AddrStd_0;
    let y = b->AddrStd_0;
    assert(address_bytes(a)[1] == workchain_byte(x.workchain_id));
    assert(address_bytes(b)[1] == workchain_byte(y.workchain_id));
    assert(x.workchain_id == y.workchain_id);
    assert forall|i: int| 0 <= i < 32 implies x.address[i] == y.address[i] by {
        assert(address_bytes(a)[2 + i] == x.address@[i]);
        assert(address_bytes(b)[2 + i] == y.address@[i]);
    }
    assert(x.address =~= y.address);
}

/// The fields of a deposit event take `DEPOSIT_TOKEN_EVENT_LEN` bytes.
pub proof fn lemma_deposit_event_len(event: DepositTokenEvent)
    ensures
        deposit_event_bytes(event).len() == DEPOSIT_TOKEN_EVENT_LEN,
        DEPOSIT_TOKEN_EVENT_LEN == 108,
{
    lemma_auto_spec_u64_to_from_le_bytes();
    lemma_address_len(event.recipient_address);
    lemma_address_len(event.configuration);
}

/// The fields of a withdrawal event take `WITHDRAWAL_TOKEN_EVENT_LEN` bytes
/// and those of the packed symbol.
pub proof fn lemma_withdrawal_event_len(event: WithdrawalEventView)
    ensures
        withdrawal_event_bytes(event).len() == WITHDRAWAL_TOKEN_EVENT_LEN + string_len(
            event.token_symbol,
        ),
        WITHDRAWAL_TOKEN_EVENT_LEN == 74,
{
    lemma_auto_spec_u64_to_from_le_bytes();
    lemma_auto_spec_u32_to_from_le_bytes();
    lemma_address_len(event.sender_address);
}

/// Where each field lies among the bytes of a withdrawal event.
pub proof fn lemma_withdrawal_event_layout(event: WithdrawalEventView)
    ensures
        ({
            let b = withdrawal_event_bytes(event);
            &&& b.len() == 78 + encode_utf8(event.token_symbol).len()
            &&& b.subrange(0, 34) == address_bytes(event.sender_address)
            &&& b.subrange(34, 42) == spec_u64_to_le_bytes(event.amount)
            &&& b.subrange(42, 74) == event.recipient_address@
            &&& b.subrange(78, b.len() as int) == encode_utf8(event.token_symbol)
        }),
{
    lemma_auto_spec_u64_to_from_le_bytes();
    lemma_auto_spec_u32_to_from_le_bytes();
    lemma_address_len(event.sender_address);
    let b = withdrawal_event_bytes(event);
    assert(b.subrange(0, 34) =~= address_bytes(event.sender_address));
    assert(b.subrange(34, 42) =~= spec_u64_to_le_bytes(event.amount));
    assert(b.subrange(42, 74) =~= event.recipient_address@);
    assert(b.subrange(78, b.len() as int) =~= encode_utf8(event.token_symbol));
}

/// A payload stands for at most one withdrawal event.
pub proof fn lemma_withdrawal_payload_is_injective(
    payload: Seq<u8>,
    a: WithdrawalEventView,
    b: WithdrawalEventView,
)
    requires
        is_withdrawal_payload(payload, a),
        is_withdrawal_payload(payload, b),
    ensures
        a == b,
{
    lemma_auto_spec_u32_to_from_le_bytes();
    lemma_auto_spec_u64_to_from_le_bytes();
    let x = withdrawal_event_bytes(a);
    let y = withdrawal_event_bytes(b);
    assert(spec_u32_to_le_bytes(x.len() as u32).len() == 4);
    assert(spec_u32_to_le_bytes(y.len() as u32).len() == 4);
    assert(exact_withdrawal_payload(a).len() == 4 + x.len());
    assert(exact_withdrawal_payload(b).len() == 4 + y.len());
    assert(x.len() == y.len());
    assert(payload.subrange(4, payload.len() as int) =~= x);
    assert(payload.subrange(4, payload.len() as int) =~= y);
    lemma_withdrawal_event_layout(a);
    lemma_withdrawal_event_layout(b);
    lemma_address_bytes_are_injective(a.sender_address, b.sender_address);
    assert(spec_u64_from_le_bytes(spec_u64_to_le_bytes(a.amount)) == a.amount);
    assert(spec_u64_from_le_bytes(spec_u64_to_le_bytes(b.amount)) == b.amount);
    lemma_pubkey_view_injective(a.recipient_address, b.recipient_address);
    encode_utf8_decode_utf8(a.token_symbol);
    encode_utf8_decode_utf8(b.token_symbol);
}

/// Decoding undoes packing: the exact payload of a withdrawal event stands
/// for that event and no other.
pub proof fn law_withdrawal_payload_decodes_to_its_event(event: WithdrawalEventView)
    requires
        withdrawal_event_bytes(event).len() <= u32::MAX,
    ensures
        decode_withdrawal_spec(exact_withdrawal_payload(event)) == Some(event),
{
    let payload = exact_withdrawal_payload(event);
    assert(is_withdrawal_payload(payload, event));
    let chosen = choose|e: WithdrawalEventView| is_withdrawal_payload(payload, e);
    lemma_withdrawal_payload_is_injective(payload, event, chosen);
}

/// The payload of a withdrawal event, written in chunks, is put together
/// again whatever the order of the chunks: when the chunks do not overlap,
/// lie inside the buffer, and every byte of the payload lies in a chunk that
/// carries it, then after the writes, in the given order or in any other,
/// the assembler is complete, holds exactly the payload, and the payload
/// stands for the event that was packed.
pub proof fn law_withdrawal_event_assembles_in_any_order(
    a: AssemblerView,
    chunks: Seq<Chunk>,
    order: Seq<int>,
    event: WithdrawalEventView,
)
    requires
        a.wf(),
        !a.sealed,
        all_fit(chunks, a.buffer.len()),
        pairwise_apart(chunks),
        is_permutation(order, chunks.len()),
        withdrawal_event_bytes(event).len() <= u32::MAX,
        forall|i: int| 0 <= i < exact_withdrawal_payload(event).len() ==> covered(chunks, i),
        forall|i: int, k: int|
            0 <= i < exact_withdrawal_payload(event).len() && 0 <= k < chunks.len() && (
            #[trigger] chunks[k]).covers(i) ==> chunks[k].bytes[i - chunks[k].offset]
                == #[trigger] exact_withdrawal_payload(event)[i],
    ensures
        write_all(a, chunks) is Ok,
        write_all(a, rearranged(chunks, order)) == write_all(a, chunks),
        payload_spec(write_all(a, chunks)->Ok_0) == Some(exact_withdrawal_payload(event)),
        payload_spec(write_all(a, rearranged(chunks, order))->Ok_0) == Some(
            exact_withdrawal_payload(event),
        ),
        decode_withdrawal_spec(exact_withdrawal_payload(event)) == Some(event),
{
    lemma_auto_spec_u32_to_from_le_bytes();
    let payload = exact_withdrawal_payload(event);
    assert(payload.subrange(0, 4) =~= spec_u32_to_le_bytes(
        withdrawal_event_bytes(event).len() as u32,
    ));
    law_covering_chunks_assemble_payload(a, chunks, payload);
    law_chunk_order_is_irrelevant(a, chunks, order);
    law_withdrawal_payload_decodes_to_its_event(event);
}

/// A withdrawal event that is not fully written shows so by its first four
/// bytes: where the buffer starts with the event's length field and one of
/// the bytes that the field announces has not been written, there is no
/// payload yet.
pub proof fn law_withdrawal_shortfall_shows_in_the_prefix(
    a: AssemblerView,
    event: WithdrawalEventView,
    position: int,
)
    requires
        a.wf(),
        a.buffer.len() >= 4,
        withdrawal_event_bytes(event).len() <= u32::MAX,
        a.buffer.subrange(0, 4) == spec_u32_to_le_bytes(withdrawal_event_bytes(event).len() as u32),
        0 <= position < exact_withdrawal_payload(event).len(),
        position < a.buffer.len() ==> !a.written[position],
    ensures
        payload_spec(a) is None,
{
    lemma_auto_spec_u32_to_from_le_bytes();
    law_missing_byte_means_incomplete(a, position);
}

/// Computes the byte of a workchain.
fn workchain_to_byte(workchain_id: i8) -> (byte: u8)
    ensures
        byte == workchain_byte(workchain_id),
{
    if workchain_id >= 0 {
        workchain_id as u8
    } else {
        (workchain_id as i16 + 256) as u8
    }
}

/// Appends 32 bytes.
fn push_bytes(out: &mut Vec<u8>, bytes: &[u8; 32])
    ensures
        final(out)@ == old(out)@ + bytes@,
{
    let ghost start = out@;
    let mut j: usize = 0;
    while j < 32
        invariant
            j <= 32,
            out@ == start + bytes@.take(j as int),
        decreases 32 - j,
    {
        out.push(bytes[j]);
        assert(bytes@.take(j as int + 1) =~= bytes@.take(j as int).push(bytes@[j as int]));
        assert(out@ =~= start + bytes@.take(j as int + 1));
        j += 1;
    }
    assert(bytes@.take(32) =~= bytes@);
}

/// Appends an address.
fn push_address(out: &mut Vec<u8>, address: &EverAddress)
    ensures
        final(out)@ == old(out)@ + address_bytes(*address),
{
    let ghost start = out@;
    match address {
        EverAddress::AddrStd(std) => {
            out.push(0u8);
            out.push(workchain_to_byte(std.workchain_id));
            push_bytes(out, &std.address);
            assert(out@ =~= start + address_bytes(*address));
        },
    }
}

impl DepositTokenEventWithLen {
    /// The stored form of the event: its length field, then its fields.
    pub fn pack(&self) -> (bytes: Vec<u8>)
        ensures
            bytes@ == deposit_payload(*self),
            bytes@.len() == 4 + DEPOSIT_TOKEN_EVENT_LEN,
    {
        proof {
            lemma_auto_spec_u32_to_from_le_bytes();
            lemma_deposit_event_len(self.data);
        }
        let mut out = u32_to_le_bytes(self.len);
        push_bytes(&mut out, &self.data.sender_address.0);
        let mut amount = u64_to_le_bytes(self.data.amount);
        out.append(&mut amount);
        push_address(&mut out, &self.data.recipient_address);
        push_address(&mut out, &self.data.configuration);
        assert(out@ =~= deposit_payload(*self));
        out
    }
}

impl WithdrawalTokenEventWithLen {
    /// The stored form of the event: its length field, then its fields.
    /// `SymbolTooLong` where the symbol has more UTF-8 bytes than 32 bits can
    /// count.
    pub fn pack(&self) -> (bytes: Result<Vec<u8>, PackError>)
        ensures
            bytes is Ok <==> encode_utf8(self.data.token_symbol@).len() <= u32::MAX,
            bytes matches Ok(b) ==> b@ == withdrawal_payload(*self) && b@.len() == 4
                + WITHDRAWAL_TOKEN_EVENT_LEN + string_len(self.data.token_symbol@),
            bytes matches Err(e) ==> e == PackError::SymbolTooLong,
    {
        proof {
            lemma_auto_spec_u32_to_from_le_bytes();
            lemma_withdrawal_event_len(self.data@);
        }
        let mut symbol = match pack_symbol(&self.data.token_symbol) {
            Ok(symbol) => symbol,
            Err(e) => {
                return Err(e);
            },
        };
        let mut out = u32_to_le_bytes(self.len);
        push_address(&mut out, &self.data.sender_address);
        let mut amount = u64_to_le_bytes(self.data.amount);
        out.append(&mut amount);
        push_bytes(&mut out, &self.data.recipient_address.0);
        out.append(&mut symbol);
        assert(out@ =~= withdrawal_payload(*self));
        Ok(out)
    }
}

} // verus!
