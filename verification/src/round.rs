//! Relay sets and rounds: who may vote, and until when.

use vstd::prelude::*;
use crate::types::Pubkey;

verus! {

/// The largest relay set that a rotation event can carry: with more, the
/// event's byte length would no longer fit its 32-bit length prefix.
pub const MAX_RELAYS: usize = 134_217_727;

/// No identity occurs twice in `keys`.
pub open spec fn distinct(keys: Seq<Pubkey>) -> bool {
    forall|i: int, j: int| 0 <= i < j < keys.len() ==> keys[i] != keys[j]
}

/// `keys` can be the relays of a round: pairwise different and at most `MAX_RELAYS`.
pub open spec fn valid_relays(keys: Seq<Pubkey>) -> bool {
    distinct(keys) && keys.len() <= MAX_RELAYS
}

/// The slot of `who` in `keys`; meaningful where `keys` contains `who`.
pub open spec fn slot_of(keys: Seq<Pubkey>, who: Pubkey) -> int {
    keys.index_of(who)
}

/// In a list without repetitions an identity has exactly one slot.
pub proof fn lemma_slot_unique(keys: Seq<Pubkey>, who: Pubkey, i: int)
    requires
        distinct(keys),
        0 <= i < keys.len(),
        keys[i] == who,
    ensures
        keys.contains(who),
        slot_of(keys, who) == i,
{
    assert(keys.contains(who));
    let j = keys.index_of(who);
    assert(0 <= j < keys.len() && keys[j] == who);
    if j < i {
        assert(keys[j] != keys[i]);
    } else if i < j {
        assert(keys[i] != keys[j]);
    }
}

/// An ordered set of relay identities. Its view is the list of identities in
/// slot order; the list never holds one identity twice.
pub struct RelaySet {
    keys: Vec<Pubkey>,
}

impl View for RelaySet {
    type V = Seq<Pubkey>;

    closed spec fn view(&self) -> Seq<Pubkey> {
        self.keys@
    }
}

impl RelaySet {
    /// What holds of every relay set that exists at run time.
    #[verifier::type_invariant]
    pub open spec fn inv(&self) -> bool {
        valid_relays(self@)
    }

    /// Makes a relay set of `keys`, in the given order. `None` when an
    /// identity is repeated or there are more than `MAX_RELAYS`.
    pub fn new(keys: Vec<Pubkey>) -> (set: Option<RelaySet>)
        ensures
            set is Some <==> valid_relays(keys@),
            set matches Some(s) ==> s@ == keys@,
    {
        if keys.len() > MAX_RELAYS {
            return None;
        }
        let n = keys.len();
        let mut j: usize = 0;
        while j < n
            invariant
                n == keys.len(),
                j <= n,
                forall|a: int, b: int| 0 <= a < b < j ==> keys@[a] != keys@[b],
            decreases n - j,
        {
            let mut i: usize = 0;
            while i < j
                invariant
                    n == keys.len(),
                    j < n,
                    i <= j,
                    forall|a: int| 0 <= a < i ==> keys@[a] != keys@[j as int],
                decreases j - i,
            {
                if keys[i] == keys[j] {
                    assert(keys@[i as int] == keys@[j as int]);
                    assert(!distinct(keys@));
                    return None;
                }
                i += 1;
            }
            j += 1;
        }
        assert(distinct(keys@));
        Some(RelaySet { keys })
    }

    /// How many relays the set holds.
    pub fn len(&self) -> (n: usize)
        ensures
            n == self@.len(),
            n <= MAX_RELAYS,
    {
        proof {
            use_type_invariant(self);
        }
        self.keys.len()
    }

    /// The slot of `who`: `Some(i)` where the relay in slot `i` is `who`,
    /// `None` where `who` is not a relay of the set.
    pub fn position(&self, who: &Pubkey) -> (slot: Option<usize>)
        ensures
            slot is Some <==> self@.contains(*who),
            slot matches Some(i) ==> i < self@.len() && self@[i as int] == *who && i == slot_of(
                self@,
                *who,
            ),
    {
        proof {
            use_type_invariant(self);
        }
        let n = self.keys.len();
        let mut i: usize = 0;
        while i < n
            invariant
                n == self.keys.len(),
                i <= n,
                distinct(self@),
                forall|a: int| 0 <= a < i ==> self.keys@[a] != *who,
            decreases n - i,
        {
            if self.keys[i] == *who {
                proof {
                    lemma_slot_unique(self@, *who, i as int);
                }
                return Some(i);
            }
            i += 1;
        }
        assert(!self@.contains(*who));
        None
    }

    /// The relay in slot `i`, if there is such a slot.
    pub fn get(&self, i: usize) -> (key: Option<Pubkey>)
        ensures
            key is Some <==> i < self@.len(),
            key matches Some(k) ==> k == self@[i as int],
    {
        if i < self.keys.len() {
            Some(self.keys[i])
        } else {
            None
        }
    }

    /// The relays in slot order.
    pub fn to_vec(&self) -> (keys: Vec<Pubkey>)
        ensures
            keys@ == self@,
    {
        let n = self.keys.len();
        let mut out: Vec<Pubkey> = Vec::new();
        let mut i: usize = 0;
        while i < n
            invariant
                n == self.keys.len(),
                i <= n,
                out@ == self.keys@.take(i as int),
            decreases n - i,
        {
            out.push(self.keys[i]);
            assert(self.keys@.take(i as int + 1) =~= self.keys@.take(i as int).push(
                self.keys@[i as int],
            ));
            i += 1;
        }
        assert(self.keys@.take(n as int) =~= self.keys@);
        out
    }

    /// A second relay set with the same relays in the same order.
    pub fn duplicate(&self) -> (copy: RelaySet)
        ensures
            copy@ == self@,
    {
        proof {
            use_type_invariant(self);
        }
        let keys = self.to_vec();
        RelaySet { keys }
    }
}

/// A round: a relay set that may vote until `round_end`.
pub struct RelayRound {
    pub round_number: u32,
    pub round_end: u32,
    pub relays: RelaySet,
}

/// A round as plain values.
pub ghost struct RelayRoundView {
    pub round_number: u32,
    pub round_end: u32,
    pub relays: Seq<Pubkey>,
}

impl View for RelayRound {
    type V = RelayRoundView;

    open spec fn view(&self) -> RelayRoundView {
        RelayRoundView {
            round_number: self.round_number,
            round_end: self.round_end,
            relays: self.relays@,
        }
    }
}

impl RelayRound {
    /// Whether the round is over at time `now`: the time has gone past `round_end`.
    pub fn expired(&self, now: i64) -> (over: bool)
        ensures
            over == (now > self.round_end),
    {
        now > self.round_end as i64
    }
}

} // verus!
