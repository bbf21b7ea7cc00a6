//! The rotation event and its byte format.
//!
//! A rotation event names the next round: its number, its relays and its end.
//! On the wire it is a 32-bit little-endian length, then the round number
//! (32 bits), the number of relays (32 bits), 32 bytes per relay, and the
//! round end (32 bits), all little-endian. The length counts what follows it.

use vstd::prelude::*;
use vstd::bytes::{
    lemma_auto_spec_u32_to_from_le_bytes, spec_u32_from_le_bytes, spec_u32_to_le_bytes,
    u32_from_le_bytes, u32_to_le_bytes,
};
use vstd::slice::slice_subrange;
use crate::round::{valid_relays, RelaySet, MAX_RELAYS};
use crate::types::{lemma_pubkey_view_injective, Pubkey};

verus! {

/// A rotation event as plain values.
pub ghost struct RotationEventView {
    pub round_num: u32,
    pub relays: Seq<Pubkey>,
    pub round_end: u32,
}

/// The event of a rotation proposal: the round that the proposal installs.
pub struct RelayRoundProposalEvent {
    pub round_num: u32,
    pub relays: RelaySet,
    pub round_end: u32,
}

impl View for RelayRoundProposalEvent {
    type V = RotationEventView;

    open spec fn view(&self) -> RotationEventView {
        RotationEventView {
            round_num: self.round_num,
            relays: self.relays@,
            round_end: self.round_end,
        }
    }
}

/// The identities of `keys` laid end to end, 32 bytes each.
pub open spec fn keys_bytes(keys: Seq<Pubkey>) -> Seq<u8> {
    Seq::new(32 * keys.len(), |i: int| keys[i / 32]@[i % 32])
}

/// The number of bytes after the length prefix for an event of `relay_count` relays.
pub open spec fn event_len(relay_count: nat) -> nat {
    12 + 32 * relay_count
}

/// The bytes of an event after the length prefix.
pub open spec fn encode_event(e: RotationEventView) -> Seq<u8> {
    spec_u32_to_le_bytes(e.round_num) + spec_u32_to_le_bytes(e.relays.len() as u32) + keys_bytes(
        e.relays,
    ) + spec_u32_to_le_bytes(e.round_end)
}

/// The complete payload of an event: length prefix and body.
pub open spec fn encode_event_with_len(e: RotationEventView) -> Seq<u8> {
    spec_u32_to_le_bytes(event_len(e.relays.len()) as u32) + encode_event(e)
}

/// `payload` is the payload of the event `e`, and `e` names a valid relay set.
pub open spec fn is_encoding_of(payload: Seq<u8>, e: RotationEventView) -> bool {
    valid_relays(e.relays) && payload == encode_event_with_len(e)
}

/// The event that `payload` stands for: the one whose payload it is, if there is one.
pub open spec fn decode_spec(payload: Seq<u8>) -> Option<RotationEventView> {
    if exists|e: RotationEventView| is_encoding_of(payload, e) {
        Some(choose|e: RotationEventView| is_encoding_of(payload, e))
    } else {
        None
    }
}

/// Where each field lies in a payload.
pub proof fn lemma_encoding_layout(e: RotationEventView)
    requires
        e.relays.len() <= MAX_RELAYS,
    ensures
        ({
            let b = encode_event_with_len(e);
            let n = e.relays.len() as int;
            &&& b.len() == 16 + 32 * n
            &&& b.subrange(0, 4) == spec_u32_to_le_bytes(event_len(e.relays.len()) as u32)
            &&& b.subrange(4, 8) == spec_u32_to_le_bytes(e.round_num)
            &&& b.subrange(8, 12) == spec_u32_to_le_bytes(n as u32)
            &&& b.subrange(12, 12 + 32 * n) == keys_bytes(e.relays)
            &&& b.subrange(12 + 32 * n, 16 + 32 * n) == spec_u32_to_le_bytes(e.round_end)
        }),
{
    lemma_auto_spec_u32_to_from_le_bytes();
    let b = encode_event_with_len(e);
    let n = e.relays.len() as int;
    assert(b.subrange(0, 4) =~= spec_u32_to_le_bytes(event_len(e.relays.len()) as u32));
    assert(b.subrange(4, 8) =~= spec_u32_to_le_bytes(e.round_num));
    assert(b.subrange(8, 12) =~= spec_u32_to_le_bytes(n as u32));
    assert(b.subrange(12, 12 + 32 * n) =~= keys_bytes(e.relays));
    assert(b.subrange(12 + 32 * n, 16 + 32 * n) =~= spec_u32_to_le_bytes(e.round_end));
}

/// What a payload says about the event that it encodes.
pub proof fn lemma_encoding_fields(payload: Seq<u8>, e: RotationEventView)
    requires
        is_encoding_of(payload, e),
    ensures
        payload.len() == 16 + 32 * e.relays.len(),
        spec_u32_from_le_bytes(payload.subrange(0, 4)) == 12 + 32 * e.relays.len(),
        spec_u32_from_le_bytes(payload.subrange(4, 8)) == e.round_num,
        spec_u32_from_le_bytes(payload.subrange(8, 12)) == e.relays.len(),
        spec_u32_from_le_bytes(
            payload.subrange(12 + 32 * (e.relays.len() as int), 16 + 32 * (e.relays.len() as int)),
        ) == e.round_end,
        forall|k: int, j: int|
            0 <= k < e.relays.len() && 0 <= j < 32 ==> #[trigger] e.relays[k]@[j] == payload[12 + 32
                * k + j],
{
    lemma_auto_spec_u32_to_from_le_bytes();
    lemma_encoding_layout(e);
    let n = e.relays.len() as int;
    assert forall|k: int, j: int| 0 <= k < n && 0 <= j < 32 implies #[trigger] e.relays[k]@[j]
        == payload[12 + 32 * k + j] by {
        let i = 32 * k + j;
        assert(i / 32 == k && i % 32 == j);
        assert(keys_bytes(e.relays)[i] == e.relays[k]@[j]);
        assert(payload.subrange(12, 12 + 32 * n)[i] == payload[12 + i]);
    }
}

/// A payload encodes at most one event.
pub proof fn lemma_encoding_is_injective(payload: Seq<u8>, a: RotationEventView, b: RotationEventView)
    requires
        is_encoding_of(payload, a),
        is_encoding_of(payload, b),
    ensures
        a == b,
{
    lemma_encoding_fields(payload, a);
    lemma_encoding_fields(payload, b);
    assert(a.relays.len() == b.relays.len());
    assert forall|k: int| 0 <= k < a.relays.len() implies a.relays[k] == b.relays[k] by {
        lemma_pubkey_view_injective(a.relays[k], b.relays[k]);
        assert forall|j: int| 0 <= j < 32 implies a.relays[k]@[j] == b.relays[k]@[j] by {
            assert(a.relays[k]@[j] == payload[12 + 32 * k + j]);
            assert(b.relays[k]@[j] == payload[12 + 32 * k + j]);
        }
        assert(a.relays[k]@ =~= b.relays[k]@);
    }
    assert(a.relays =~= b.relays);
}

/// Decoding undoes encoding: the payload of an event with a valid relay set
/// decodes to that event.
pub proof fn law_decode_inverts_encode(e: RotationEventView)
    requires
        valid_relays(e.relays),
    ensures
        decode_spec(encode_event_with_len(e)) == Some(e),
{
    let payload = encode_event_with_len(e);
    assert(is_encoding_of(payload, e));
    let chosen = choose|x: RotationEventView| is_encoding_of(payload, x);
    lemma_encoding_is_injective(payload, e, chosen);
}

/// Encoding undoes decoding: what a payload decodes to has that payload.
pub proof fn law_encode_inverts_decode(payload: Seq<u8>)
    ensures
        decode_spec(payload) matches Some(e) ==> encode_event_with_len(e) == payload
            && valid_relays(e.relays),
{
}

/// Reads the little-endian 32-bit number at `at`.
fn read_u32(bytes: &Vec<u8>, at: usize) -> (x: u32)
    requires
        at + 4 <= bytes.len(),
    ensures
        x == spec_u32_from_le_bytes(bytes@.subrange(at as int, at + 4)),
{
    u32_from_le_bytes(slice_subrange(bytes.as_slice(), at, at + 4))
}

/// Reads the identity that starts at `at`.
fn read_pubkey(bytes: &Vec<u8>, at: usize) -> (key: Pubkey)
    requires
        at + 32 <= bytes.len(),
    ensures
        forall|j: int| 0 <= j < 32 ==> key@[j] == bytes@[at + j],
{
    let mut raw: [u8; 32] = [0u8; 32];
    let mut j: usize = 0;
    while j < 32
        invariant
            j <= 32,
            at + 32 <= bytes.len(),
            forall|t: int| 0 <= t < j ==> raw@[t] == bytes@[at + t],
        decreases 32 - j,
    {
        raw[j] = bytes[at + j];
        j += 1;
    }
    Pubkey(raw)
}

impl RelayRoundProposalEvent {
    /// Makes the event that installs round `round_num` with `relays` until
    /// `round_end`. `None` when an identity is repeated or there are more
    /// than `MAX_RELAYS`.
    pub fn new(round_num: u32, relays: Vec<Pubkey>, round_end: u32) -> (event: Option<
        RelayRoundProposalEvent,
    >)
        ensures
            event is Some <==> valid_relays(relays@),
            event matches Some(e) ==> e@ == (RotationEventView {
                round_num,
                relays: relays@,
                round_end,
            }),
    {
        match RelaySet::new(relays) {
            Some(set) => Some(RelayRoundProposalEvent { round_num, relays: set, round_end }),
            None => None,
        }
    }

    /// The length that the payload declares in its prefix: the bytes of the body.
    pub fn len(&self) -> (n: u32)
        ensures
            n == event_len(self@.relays.len()),
    {
        let count = self.relays.len();
        (12 + 32 * count) as u32
    }

    /// The payload of the event.
    pub fn pack(&self) -> (bytes: Vec<u8>)
        ensures
            bytes@ == encode_event_with_len(self@),
            bytes@.len() == 16 + 32 * self@.relays.len(),
            decode_spec(bytes@) == Some(self@),
    {
        let count = self.relays.len();
        let keys = self.relays.to_vec();
        let mut out = u32_to_le_bytes(self.len());
        let mut field = u32_to_le_bytes(self.round_num);
        out.append(&mut field);
        let mut field = u32_to_le_bytes(count as u32);
        out.append(&mut field);
        let ghost head = out@;
        proof {
            lemma_auto_spec_u32_to_from_le_bytes();
        }
        let mut k: usize = 0;
        while k < count
            invariant
                count == keys.len(),
                count <= MAX_RELAYS,
                k <= count,
                head.len() == 12,
                out@ == head + keys_bytes(keys@).take(32 * k),
            decreases count - k,
        {
            let key = keys[k];
            let mut j: usize = 0;
            while j < 32
                invariant
                    count == keys.len(),
                    count <= MAX_RELAYS,
                    k < count,
                    j <= 32,
                    key == keys@[k as int],
                    head.len() == 12,
                    out@ == head + keys_bytes(keys@).take(32 * k + j),
                decreases 32 - j,
            {
                out.push(key.0[j]);
                proof {
                    let i = 32 * k + j;
                    assert(i / 32 == k && i % 32 == j);
                    assert(keys_bytes(keys@).take(i + 1) =~= keys_bytes(keys@).take(i).push(
                        key@[j as int],
                    ));
                }
                j += 1;
            }
            k += 1;
        }
        let mut field = u32_to_le_bytes(self.round_end);
        out.append(&mut field);
        proof {
            assert(keys_bytes(keys@).take(32 * count) =~= keys_bytes(keys@));
            assert(out@ =~= encode_event_with_len(self@));
            use_type_invariant(&self.relays);
            law_decode_inverts_encode(self@);
        }
        out
    }

    /// Reads an event back from its payload. `Some` exactly for the byte
    /// strings that are the payload of an event with a valid relay set: the
    /// length prefix must equal the length of the body, the body must hold
    /// exactly the relays that it announces, and no relay may be repeated.
    pub fn unpack(payload: &Vec<u8>) -> (event: Option<RelayRoundProposalEvent>)
        ensures
            match event {
                Some(e) => decode_spec(payload@) == Some(e@),
                None => decode_spec(payload@) is None,
            },
    {
        proof {
            lemma_auto_spec_u32_to_from_le_bytes();
        }
        if payload.len() < 16 {
            proof {
                assert forall|e: RotationEventView| !is_encoding_of(payload@, e) by {
                    if is_encoding_of(payload@, e) {
                        lemma_encoding_fields(payload@, e);
                    }
                }
            }
            return None;
        }
        let declared = read_u32(payload, 0);
        let round_num = read_u32(payload, 4);
        let count = read_u32(payload, 8);
        if count as usize > MAX_RELAYS || payload.len() != 16 + 32 * (count as usize) || declared
            != 12 + 32 * count {
            proof {
                assert forall|e: RotationEventView| !is_encoding_of(payload@, e) by {
                    if is_encoding_of(payload@, e) {
                        lemma_encoding_fields(payload@, e);
                    }
                }
            }
            return None;
        }
        let n = count as usize;
        let mut keys: Vec<Pubkey> = Vec::new();
        let mut k: usize = 0;
        while k < n
            invariant
                n <= MAX_RELAYS,
                payload.len() == 16 + 32 * n,
                k <= n,
                keys@.len() == k,
                forall|t: int, j: int|
                    0 <= t < k && 0 <= j < 32 ==> #[trigger] keys@[t]@[j] == payload@[12 + 32 * t
                        + j],
            decreases n - k,
        {
            let key = read_pubkey(payload, 12 + 32 * k);
            keys.push(key);
            k += 1;
        }
        let round_end = read_u32(payload, 12 + 32 * n);
        let ghost parsed = RotationEventView { round_num, relays: keys@, round_end };
        match RelaySet::new(keys) {
            Some(relays) => {
                proof {
                    lemma_encoding_layout(parsed);
                    let b = encode_event_with_len(parsed);
                    assert forall|i: int| 0 <= i < payload@.len() implies payload@[i] == b[i] by {
                        if i < 4 {
                            assert(payload@.subrange(0, 4)[i] == b.subrange(0, 4)[i]);
                        } else if i < 8 {
                            assert(payload@.subrange(4, 8)[i - 4] == b.subrange(4, 8)[i - 4]);
                        } else if i < 12 {
                            assert(payload@.subrange(8, 12)[i - 8] == b.subrange(8, 12)[i - 8]);
                        } else if i < 12 + 32 * n {
                            let t = (i - 12) / 32;
                            let j = (i - 12) % 32;
                            assert(parsed.relays[t]@[j] == payload@[12 + 32 * t + j]);
                            assert(b.subrange(12, 12 + 32 * n)[i - 12] == keys_bytes(
                                parsed.relays,
                            )[i - 12]);
                        } else {
                            let at = 12 + 32 * n;
                            assert(payload@.subrange(at, at + 4)[i - at] == b.subrange(
                                at,
                                at + 4,
                            )[i - at]);
                        }
                    }
                    assert(payload@ =~= b);
                    law_decode_inverts_encode(parsed);
                }
                Some(RelayRoundProposalEvent { round_num, relays, round_end })
            },
            None => {
                proof {
                    assert forall|e: RotationEventView| !is_encoding_of(payload@, e) by {
                        if is_encoding_of(payload@, e) {
                            lemma_encoding_fields(payload@, e);
                            assert forall|t: int| 0 <= t < n implies e.relays[t]
                                == parsed.relays[t] by {
                                lemma_pubkey_view_injective(e.relays[t], parsed.relays[t]);
                                assert forall|j: int| 0 <= j < 32 implies e.relays[t]@[j]
                                    == parsed.relays[t]@[j] by {
                                    assert(e.relays[t]@[j] == payload@[12 + 32 * t + j]);
                                    assert(parsed.relays[t]@[j] == payload@[12 + 32 * t + j]);
                                }
                                assert(e.relays[t]@ =~= parsed.relays[t]@);
                            }
                            assert(e.relays =~= parsed.relays);
                        }
                    }
                }
                None
            },
        }
    }
}

} // verus!
