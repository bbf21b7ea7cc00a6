//! Quorum voting: one slot per relay, one vote per slot, and a proposal that
//! becomes executable once enough slots hold a confirmation.

use vstd::prelude::*;
use crate::error::RoundLoaderError;
use crate::round::{distinct, slot_of, RelayRound, RelayRoundView, MAX_RELAYS};
use crate::types::{Pubkey, Vote};

verus! {

/// The number of confirmations that a round of `n` relays needs: two thirds
/// of `n`, rounded down, and one more.
pub open spec fn quorum(n: nat) -> nat {
    2 * n / 3 + 1
}

/// Computes `quorum` for a relay count.
pub fn required_votes(relay_count: u32) -> (votes: u32)
    ensures
        votes == quorum(relay_count as nat),
{
    let twice: u64 = 2 * (relay_count as u64);
    let votes: u64 = twice / 3 + 1;
    votes as u32
}

/// A quorum is strictly more than two thirds of the relays and no more than
/// the next whole number above two thirds; any two quorums of the same round
/// share a relay.
pub proof fn law_quorum_exceeds_two_thirds(n: nat)
    ensures
        3 * quorum(n) > 2 * n,
        3 * (quorum(n) - 1) <= 2 * n,
        2 * quorum(n) > n,
        n >= 3 ==> quorum(n) <= n,
{
}

/// How many slots of `signers` hold `Vote::Confirm`.
pub open spec fn confirmations(signers: Seq<Vote>) -> nat
    decreases signers.len(),
{
    if signers.len() == 0 {
        0
    } else {
        confirmations(signers.drop_last()) + if signers.last() == Vote::Confirm {
            1nat
        } else {
            0nat
        }
    }
}

/// One for a confirmation, zero for anything else.
pub open spec fn confirm_weight(vote: Vote) -> nat {
    if vote == Vote::Confirm {
        1
    } else {
        0
    }
}

/// There are never more confirmations than slots.
pub proof fn lemma_confirmations_bound(signers: Seq<Vote>)
    ensures
        confirmations(signers) <= signers.len(),
    decreases signers.len(),
{
    if signers.len() > 0 {
        lemma_confirmations_bound(signers.drop_last());
    }
}

/// Writing one slot changes the count by the weight of the new vote less the
/// weight of the old one.
pub proof fn lemma_confirmations_update(signers: Seq<Vote>, slot: int, vote: Vote)
    requires
        0 <= slot < signers.len(),
    ensures
        confirmations(signers.update(slot, vote)) + confirm_weight(signers[slot]) == confirmations(
            signers,
        ) + confirm_weight(vote),
    decreases signers.len(),
{
    let after = signers.update(slot, vote);
    if slot == signers.len() - 1 {
        assert(after.drop_last() =~= signers.drop_last());
    } else {
        assert(after.drop_last() =~= signers.drop_last().update(slot, vote));
        lemma_confirmations_update(signers.drop_last(), slot, vote);
    }
}

/// A list of empty slots holds no confirmation.
pub proof fn lemma_confirmations_of_empty_slots(n: nat)
    ensures
        confirmations(Seq::new(n, |i: int| Vote::NotVoted)) == 0,
    decreases n,
{
    if n > 0 {
        assert(Seq::new(n, |i: int| Vote::NotVoted).drop_last() =~= Seq::new(
            (n - 1) as nat,
            |i: int| Vote::NotVoted,
        ));
        lemma_confirmations_of_empty_slots((n - 1) as nat);
    }
}

/// The voting state of a proposal as plain values.
pub ghost struct BallotView {
    /// The round whose relays vote.
    pub round_number: u32,
    /// The confirmations needed.
    pub required_votes: u32,
    /// One slot per relay of the round, in the round's order.
    pub signers: Seq<Vote>,
    /// Whether the quorum has been reached; never reset.
    pub executed: bool,
}

impl BallotView {
    /// The ballot is consistent: the threshold is the quorum of the slot
    /// count, and the proposal is marked executable only with a quorum of
    /// confirmations behind it.
    pub open spec fn wf(self) -> bool {
        &&& self.signers.len() <= MAX_RELAYS
        &&& self.required_votes == quorum(self.signers.len())
        &&& self.executed ==> confirmations(self.signers) >= self.required_votes
    }

    /// The ballot of a new proposal for a round of `relay_count` relays.
    pub open spec fn fresh(round_number: u32, relay_count: nat) -> BallotView {
        BallotView {
            round_number,
            required_votes: quorum(relay_count) as u32,
            signers: Seq::new(relay_count, |i: int| Vote::NotVoted),
            executed: false,
        }
    }
}

/// What a vote does. `round` is the round that the ballot refers to, `relay`
/// the voter, `now` the time of voting.
///
/// The checks come in this order: the round must be the ballot's round and
/// have one relay per slot (`InvalidRelayRound`); the voter must be one of its
/// relays (`InvalidRelay`); the round must not be over unless the quorum has
/// been reached already (`RelayRoundExpired`); the voter's slot must be empty
/// (`RelayAlreadyVoted`). Then the vote is written into the slot, and the
/// ballot is marked executable if the confirmations now reach the threshold.
pub open spec fn vote_spec(
    ballot: BallotView,
    round: RelayRoundView,
    relay: Pubkey,
    vote: Vote,
    now: int,
) -> Result<BallotView, RoundLoaderError> {
    if round.round_number != ballot.round_number || round.relays.len() != ballot.signers.len() {
        Err(RoundLoaderError::InvalidRelayRound)
    } else if !round.relays.contains(relay) {
        Err(RoundLoaderError::InvalidRelay)
    } else if now > round.round_end && !ballot.executed {
        Err(RoundLoaderError::RelayRoundExpired)
    } else if ballot.signers[slot_of(round.relays, relay)] != Vote::NotVoted {
        Err(RoundLoaderError::RelayAlreadyVoted)
    } else {
        let signers = ballot.signers.update(slot_of(round.relays, relay), vote);
        Ok(
            BallotView {
                round_number: ballot.round_number,
                required_votes: ballot.required_votes,
                signers,
                executed: ballot.executed || confirmations(signers) >= ballot.required_votes,
            },
        )
    }
}

/// An accepted vote leaves the ballot consistent, changes no slot but the
/// voter's, and never takes the executable mark away.
pub proof fn law_vote_keeps_ballot_consistent(
    ballot: BallotView,
    round: RelayRoundView,
    relay: Pubkey,
    vote: Vote,
    now: int,
)
    requires
        ballot.wf(),
    ensures
        vote_spec(ballot, round, relay, vote, now) matches Ok(next) ==> {
            &&& next.wf()
            &&& next.signers.len() == ballot.signers.len()
            &&& next.signers[slot_of(round.relays, relay)] == vote
            &&& forall|i: int|
                0 <= i < ballot.signers.len() && i != slot_of(round.relays, relay)
                    ==> next.signers[i] == ballot.signers[i]
            &&& ballot.executed ==> next.executed
            &&& next.executed <==> (ballot.executed || confirmations(next.signers)
                >= ballot.required_votes)
        },
{
    if let Ok(next) = vote_spec(ballot, round, relay, vote, now) {
        let slot = slot_of(round.relays, relay);
        assert(0 <= slot < round.relays.len());
        lemma_confirmations_update(ballot.signers, slot, vote);
    }
}

/// A relay that has cast a vote other than the empty one cannot vote again on
/// the same proposal: while the round runs, or once the quorum is reached, the
/// second attempt is refused with `RelayAlreadyVoted`, and the slot keeps the
/// first vote.
pub proof fn law_second_vote_is_refused(
    ballot: BallotView,
    round: RelayRoundView,
    relay: Pubkey,
    first: Vote,
    second: Vote,
    now_first: int,
    now_second: int,
)
    requires
        first != Vote::NotVoted,
        vote_spec(ballot, round, relay, first, now_first) is Ok,
        now_second <= round.round_end || vote_spec(
            ballot,
            round,
            relay,
            first,
            now_first,
        )->Ok_0.executed,
    ensures
        vote_spec(
            vote_spec(ballot, round, relay, first, now_first)->Ok_0,
            round,
            relay,
            second,
            now_second,
        ) == Err::<BallotView, RoundLoaderError>(RoundLoaderError::RelayAlreadyVoted),
        vote_spec(ballot, round, relay, first, now_first)->Ok_0.signers[slot_of(
            round.relays,
            relay,
        )] == first,
{
    let slot = slot_of(round.relays, relay);
    assert(0 <= slot < round.relays.len());
}

/// Once the round of a proposal is over and the quorum has not been reached,
/// a vote of one of its relays is refused with `RelayRoundExpired`.
pub proof fn law_vote_after_round_end_is_refused(
    ballot: BallotView,
    round: RelayRoundView,
    relay: Pubkey,
    vote: Vote,
    now: int,
)
    requires
        round.round_number == ballot.round_number,
        round.relays.len() == ballot.signers.len(),
        round.relays.contains(relay),
        !ballot.executed,
        now > round.round_end,
    ensures
        vote_spec(ballot, round, relay, vote, now) == Err::<BallotView, RoundLoaderError>(
            RoundLoaderError::RelayRoundExpired,
        ),
{
}

/// Votes of two different relays can be recorded in either order: while the
/// round runs, both orders are accepted or refused alike, and where both
/// votes are accepted the ballot ends the same.
pub proof fn law_votes_of_different_relays_commute(
    ballot: BallotView,
    round: RelayRoundView,
    relay_a: Pubkey,
    vote_a: Vote,
    relay_b: Pubkey,
    vote_b: Vote,
    now_a: int,
    now_b: int,
)
    requires
        distinct(round.relays),
        relay_a != relay_b,
        now_a <= round.round_end,
        now_b <= round.round_end,
        vote_spec(ballot, round, relay_a, vote_a, now_a) is Ok,
        vote_spec(ballot, round, relay_b, vote_b, now_b) is Ok,
    ensures
        vote_spec(
            vote_spec(ballot, round, relay_a, vote_a, now_a)->Ok_0,
            round,
            relay_b,
            vote_b,
            now_b,
        ) is Ok,
        vote_spec(
            vote_spec(ballot, round, relay_a, vote_a, now_a)->Ok_0,
            round,
            relay_b,
            vote_b,
            now_b,
        ) == vote_spec(
            vote_spec(ballot, round, relay_b, vote_b, now_b)->Ok_0,
            round,
            relay_a,
            vote_a,
            now_a,
        ),
{
    let sa = slot_of(round.relays, relay_a);
    let sb = slot_of(round.relays, relay_b);
    assert(0 <= sa < round.relays.len() && round.relays[sa] == relay_a);
    assert(0 <= sb < round.relays.len() && round.relays[sb] == relay_b);
    assert(sa != sb);
    let first_a = ballot.signers.update(sa, vote_a);
    let first_b = ballot.signers.update(sb, vote_b);
    assert(first_a.update(sb, vote_b) =~= first_b.update(sa, vote_a));
    lemma_confirmations_update(ballot.signers, sa, vote_a);
    lemma_confirmations_update(ballot.signers, sb, vote_b);
    lemma_confirmations_update(first_a, sb, vote_b);
    lemma_confirmations_update(first_b, sa, vote_a);
}

/// The voting state of one proposal.
pub struct Ballot {
    round_number: u32,
    required_votes: u32,
    signers: Vec<Vote>,
    executed: bool,
}

impl View for Ballot {
    type V = BallotView;

    closed spec fn view(&self) -> BallotView {
        BallotView {
            round_number: self.round_number,
            required_votes: self.required_votes,
            signers: self.signers@,
            executed: self.executed,
        }
    }
}

impl Ballot {
    /// What holds of every ballot that exists at run time.
    #[verifier::type_invariant]
    pub open spec fn inv(&self) -> bool {
        self@.wf()
    }

    /// The ballot of a new proposal that the relays of `round` vote on: one
    /// empty slot per relay, the threshold at the quorum of their number.
    pub fn new(round: &RelayRound) -> (ballot: Ballot)
        ensures
            ballot@ == BallotView::fresh(round.round_number, round.relays@.len()),
            ballot@.required_votes == quorum(round.relays@.len()),
            ballot@.wf(),
    {
        let n = round.relays.len();
        let mut signers: Vec<Vote> = Vec::new();
        let mut i: usize = 0;
        while i < n
            invariant
                i <= n,
                signers@ == Seq::new(i as nat, |k: int| Vote::NotVoted),
            decreases n - i,
        {
            signers.push(Vote::NotVoted);
            assert(signers@ =~= Seq::new((i + 1) as nat, |k: int| Vote::NotVoted));
            i += 1;
        }
        proof {
            lemma_confirmations_of_empty_slots(n as nat);
        }
        Ballot {
            round_number: round.round_number,
            required_votes: required_votes(n as u32),
            signers,
            executed: false,
        }
    }

    /// Makes a ballot of stored values. `Some` exactly where the values are
    /// consistent: at most `MAX_RELAYS` slots, the threshold at the quorum of
    /// the slot count, and the executable mark only with that many
    /// confirmations among the slots.
    pub fn restore(round_number: u32, required_votes: u32, signers: Vec<Vote>, executed: bool) -> (ballot:
        Option<Ballot>)
        ensures
            ballot is Some <==> (BallotView {
                round_number,
                required_votes,
                signers: signers@,
                executed,
            }).wf(),
            ballot matches Some(b) ==> b@ == (BallotView {
                round_number,
                required_votes,
                signers: signers@,
                executed,
            }),
    {
        if signers.len() > MAX_RELAYS {
            return None;
        }
        if required_votes != self::required_votes(signers.len() as u32) {
            return None;
        }
        if executed && count_confirmations(&signers) < required_votes {
            return None;
        }
        Some(Ballot { round_number, required_votes, signers, executed })
    }

    /// Makes a ballot of stored slots, marked executable exactly where the
    /// slots hold a quorum of confirmations. `Some` exactly where there are
    /// at most `MAX_RELAYS` slots and `required_votes` is the quorum of
    /// their number.
    pub fn from_votes(round_number: u32, required_votes: u32, signers: Vec<Vote>) -> (ballot: Option<
        Ballot,
    >)
        ensures
            ballot is Some <==> signers@.len() <= MAX_RELAYS && required_votes == quorum(
                signers@.len(),
            ),
            ballot matches Some(b) ==> b@ == (BallotView {
                round_number,
                required_votes,
                signers: signers@,
                executed: confirmations(signers@) >= required_votes,
            }),
    {
        if signers.len() > MAX_RELAYS {
            return None;
        }
        if required_votes != self::required_votes(signers.len() as u32) {
            return None;
        }
        let executed = count_confirmations(&signers) >= required_votes;
        Some(Ballot { round_number, required_votes, signers, executed })
    }

    /// The round whose relays vote on the proposal.
    pub fn round_number(&self) -> (n: u32)
        ensures
            n == self@.round_number,
    {
        self.round_number
    }

    /// The confirmations that the proposal needs.
    pub fn required_votes(&self) -> (n: u32)
        ensures
            n == self@.required_votes,
            n == quorum(self@.signers.len()),
    {
        proof {
            use_type_invariant(self);
        }
        self.required_votes
    }

    /// The slots, one per relay, in the round's order.
    pub fn signers(&self) -> (slots: &Vec<Vote>)
        ensures
            slots@ == self@.signers,
    {
        &self.signers
    }

    /// Whether the quorum has been reached.
    pub fn is_executed(&self) -> (done: bool)
        ensures
            done == self@.executed,
            done ==> confirmations(self@.signers) >= self@.required_votes,
    {
        proof {
            use_type_invariant(self);
        }
        self.executed
    }

    /// Counts the slots that hold a confirmation.
    pub fn confirmations(&self) -> (count: u32)
        ensures
            count == confirmations(self@.signers),
            count <= self@.signers.len(),
    {
        proof {
            use_type_invariant(self);
            lemma_confirmations_bound(self.signers@);
        }
        count_confirmations(&self.signers)
    }

    /// Records the vote of `relay` at time `now`, as `vote_spec` says. On a
    /// refusal the ballot is unchanged.
    pub fn vote(&mut self, round: &RelayRound, relay: &Pubkey, vote: Vote, now: i64) -> (outcome:
        Result<(), RoundLoaderError>)
        ensures
            match vote_spec(old(self)@, round@, *relay, vote, now as int) {
                Ok(next) => outcome is Ok && final(self)@ == next,
                Err(e) => outcome == Err::<(), RoundLoaderError>(e) && final(self)@ == old(self)@,
            },
            final(self)@.wf(),
    {
        proof {
            use_type_invariant(&*self);
            use_type_invariant(&round.relays);
        }
        if round.round_number != self.round_number || round.relays.len() != self.signers.len() {
            return Err(RoundLoaderError::InvalidRelayRound);
        }
        let slot = match round.relays.position(relay) {
            Some(slot) => slot,
            None => {
                return Err(RoundLoaderError::InvalidRelay);
            },
        };
        if round.expired(now) && !self.executed {
            return Err(RoundLoaderError::RelayRoundExpired);
        }
        if self.signers[slot] != Vote::NotVoted {
            return Err(RoundLoaderError::RelayAlreadyVoted);
        }
        proof {
            assert forall|v: Vote|
                confirmations(#[trigger] self.signers@.update(slot as int, v)) >= confirmations(
                    self.signers@,
                ) by {
                lemma_confirmations_update(self.signers@, slot as int, v);
            }
            lemma_confirmations_update(self.signers@, slot as int, vote);
        }
        self.signers[slot] = vote;
        let count = count_confirmations(&self.signers);
        if count >= self.required_votes {
            self.executed = true;
        }
        Ok(())
    }
}

/// Counts the confirmations in a list of slots.
fn count_confirmations(signers: &Vec<Vote>) -> (count: u32)
    requires
        signers@.len() <= MAX_RELAYS,
    ensures
        count == confirmations(signers@),
{
    let n = signers.len();
    let mut count: u32 = 0;
    let mut i: usize = 0;
    while i < n
        invariant
            n == signers.len(),
            n <= MAX_RELAYS,
            i <= n,
            count == confirmations(signers@.take(i as int)),
            count <= i,
        decreases n - i,
    {
        assert(signers@.take(i as int + 1).drop_last() =~= signers@.take(i as int));
        if signers[i] == Vote::Confirm {
            count += 1;
        }
        i += 1;
    }
    assert(signers@.take(n as int) =~= signers@);
    count
}

} // verus!
