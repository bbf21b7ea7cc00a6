//! Plain value types shared by every component: identities, votes and
//! addresses on the second ledger.

use vstd::prelude::*;
use vstd::std_specs::cmp::PartialEqSpecImpl;
use vstd::std_specs::convert::FromSpecImpl;

verus! {

/// Number of bytes in an identity.
pub const PUBKEY_BYTES: usize = 32;

/// The identity of a relay, an administrator or a record owner: 32 opaque bytes.
///
/// Two identities are the same exactly when all 32 bytes agree.
#[derive(Clone, Copy, Debug)]
pub struct Pubkey(pub [u8; 32]);

impl View for Pubkey {
    type V = Seq<u8>;

    open spec fn view(&self) -> Seq<u8> {
        self.0@
    }
}

impl Pubkey {
    /// Wraps 32 bytes as an identity.
    pub fn new_from_array(bytes: [u8; 32]) -> (key: Pubkey)
        ensures
            key.0 == bytes,
            key@ == bytes@,
    {
        Pubkey(bytes)
    }

    /// The 32 bytes of the identity.
    pub fn to_bytes(&self) -> (bytes: [u8; 32])
        ensures
            bytes == self.0,
            bytes@ == self@,
    {
        self.0
    }
}

impl PartialEq for Pubkey {
    fn eq(&self, other: &Pubkey) -> (same: bool) {
        let mut i: usize = 0;
        while i < 32
            invariant
                i <= 32,
                forall|k: int| 0 <= k < i ==> self.0[k] == other.0[k],
            decreases 32 - i,
        {
            if self.0[i] != other.0[i] {
                return false;
            }
            i += 1;
        }
        assert(self.0 =~= other.0);
        true
    }
}

impl Eq for Pubkey {

}

impl PartialEqSpecImpl for Pubkey {
    open spec fn obeys_eq_spec() -> bool {
        true
    }

    open spec fn eq_spec(&self, other: &Pubkey) -> bool {
        *self == *other
    }
}

/// Identities are determined by their bytes: equal views mean equal identities.
pub proof fn lemma_pubkey_view_injective(a: Pubkey, b: Pubkey)
    ensures
        (a@ == b@) <==> (a == b),
        a@.len() == 32,
{
    if a@ == b@ {
        assert(a.0 =~= b.0);
    }
}

/// What a relay said about a proposal. Every signer slot starts as `NotVoted`.
#[derive(Clone, Copy, Debug, PartialEq, Eq, Structural)]
pub enum Vote {
    NotVoted,
    Confirm,
    Reject,
}

/// A standard address on the second ledger: a workchain and a 256-bit account id.
#[derive(Clone, Copy, Debug)]
pub struct MsgAddrStd {
    pub workchain_id: i8,
    pub address: [u8; 32],
}

/// An address on the second ledger.
#[derive(Clone, Copy, Debug)]
pub enum EverAddress {
    AddrStd(MsgAddrStd),
}

/// A 256-bit unsigned value kept as 32 bytes.
#[derive(Clone, Copy, Debug)]
pub struct UInt256(pub [u8; 32]);

impl View for UInt256 {
    type V = Seq<u8>;

    open spec fn view(&self) -> Seq<u8> {
        self.0@
    }
}

impl UInt256 {
    /// The 32 bytes of the value, in the order they were given.
    pub fn as_slice(&self) -> (bytes: &[u8; 32])
        ensures
            *bytes == self.0,
            bytes@ == self@,
    {
        &self.0
    }
}

impl From<[u8; 32]> for UInt256 {
    fn from(data: [u8; 32]) -> (value: UInt256) {
        UInt256(data)
    }
}

impl FromSpecImpl<[u8; 32]> for UInt256 {
    open spec fn obeys_from_spec() -> bool {
        true
    }

    open spec fn from_spec(data: [u8; 32]) -> UInt256 {
        UInt256(data)
    }
}

impl From<&[u8; 32]> for UInt256 {
    fn from(data: &[u8; 32]) -> (value: UInt256) {
        UInt256(*data)
    }
}

impl FromSpecImpl<&[u8; 32]> for UInt256 {
    open spec fn obeys_from_spec() -> bool {
        true
    }

    open spec fn from_spec(data: &[u8; 32]) -> UInt256 {
        UInt256(*data)
    }
}

impl PartialEq for UInt256 {
    fn eq(&self, other: &UInt256) -> (same: bool) {
        let mut i: usize = 0;
        while i < 32
            invariant
                i <= 32,
                forall|k: int| 0 <= k < i ==> self.0[k] == other.0[k],
            decreases 32 - i,
        {
            if self.0[i] != other.0[i] {
                return false;
            }
            i += 1;
        }
        assert(self.0 =~= other.0);
        true
    }
}

impl Eq for UInt256 {

}

impl PartialEqSpecImpl for UInt256 {
    open spec fn obeys_eq_spec() -> bool {
        true
    }

    open spec fn eq_spec(&self, other: &UInt256) -> bool {
        *self == *other
    }
}

} // verus!
