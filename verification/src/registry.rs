//! The round registry and rotation proposals.
//!
//! The registry holds every round since the first one; the last is the
//! current round. A rotation proposal carries the event that names the next
//! round. Its payload is written in chunks, then finalized; after that the
//! relays of the current round vote, and once the quorum is reached the
//! proposal can be executed, which appends the new round.

use vstd::prelude::*;
use crate::chunk::{
    all_fit, covered, declared_len, is_permutation, law_chunk_order_is_irrelevant,
    law_covering_chunks_assemble_payload, law_missing_byte_means_incomplete,
    lemma_write_all_pointwise, pairwise_apart, payload_spec, rearranged, write_all, write_spec,
    AssemblerView, Chunk, ChunkedEventAssembler,
};
use crate::error::RoundLoaderError;
use crate::event::{
    decode_spec, encode_event_with_len, law_decode_inverts_encode, lemma_encoding_fields,
    RelayRoundProposalEvent, RotationEventView,
};
use crate::round::{valid_relays, RelayRound, RelayRoundView, RelaySet};
use crate::types::{Pubkey, Vote};
use crate::voting::{vote_spec, Ballot, BallotView};

verus! {

/// The size of the payload buffer of a proposal.
pub const PROPOSAL_EVENT_CAPACITY: usize = 5000;

/// The rounds number on from the first without a gap, and each has a valid relay set.
pub open spec fn registry_wf(rounds: Seq<RelayRoundView>) -> bool {
    forall|i: int|
        0 <= i < rounds.len() ==> (#[trigger] rounds[i]).round_number == rounds[0].round_number + i
            && valid_relays(rounds[i].relays)
}

/// The round with the given number, if the registry holds it.
pub open spec fn round_at(rounds: Seq<RelayRoundView>, number: u32) -> Option<RelayRoundView> {
    if rounds.len() > 0 && rounds[0].round_number <= number < rounds[0].round_number
        + rounds.len() {
        Some(rounds[number - rounds[0].round_number])
    } else {
        None
    }
}

/// The current round: the last one.
pub open spec fn current_round(rounds: Seq<RelayRoundView>) -> Option<RelayRoundView> {
    if rounds.len() > 0 {
        Some(rounds.last())
    } else {
        None
    }
}

/// What identifies a rotation proposal: who reported the event, and which event.
#[derive(Clone, Copy, Debug)]
pub struct ProposalKey {
    pub author: Pubkey,
    pub event_timestamp: u32,
    pub event_transaction_lt: u64,
    pub event_configuration: Pubkey,
}

/// A rotation proposal as plain values.
pub ghost struct RotationProposalView {
    pub key: ProposalKey,
    pub ballot: BallotView,
    pub assembler: AssemblerView,
}

impl RotationProposalView {
    /// The proposal has been finalized: its payload is fixed and the relays may vote.
    pub open spec fn open_for_voting(self) -> bool {
        self.assembler.sealed
    }

    /// The event of a finalized proposal.
    pub open spec fn event(self) -> Option<RotationEventView> {
        if self.assembler.sealed {
            match payload_spec(self.assembler) {
                Some(payload) => decode_spec(payload),
                None => None,
            }
        } else {
            None
        }
    }

    /// A proposal as it is before its first chunk: for the relays of `round`,
    /// no vote cast, an empty buffer.
    pub open spec fn fresh(key: ProposalKey, round: RelayRoundView) -> RotationProposalView {
        RotationProposalView {
            key,
            ballot: BallotView::fresh(round.round_number, round.relays.len()),
            assembler: AssemblerView::empty(PROPOSAL_EVENT_CAPACITY as nat),
        }
    }
}

/// What creating a rotation proposal gives: a fresh proposal for the current
/// round, or `InvalidRelayRound` where there is no round yet.
pub open spec fn propose_rotation_spec(rounds: Seq<RelayRoundView>, key: ProposalKey) -> Result<
    RotationProposalView,
    RoundLoaderError,
> {
    match current_round(rounds) {
        Some(round) => Ok(RotationProposalView::fresh(key, round)),
        None => Err(RoundLoaderError::InvalidRelayRound),
    }
}

/// What writing a chunk does to a proposal: what it does to its buffer.
pub open spec fn proposal_write_spec(p: RotationProposalView, offset: nat, bytes: Seq<u8>) -> Result<
    RotationProposalView,
    RoundLoaderError,
> {
    match write_spec(p.assembler, offset, bytes) {
        Ok(assembler) => Ok(
            RotationProposalView { key: p.key, ballot: p.ballot, assembler },
        ),
        Err(e) => Err(e),
    }
}

/// What finalizing does: refused with `AlreadyInitialized` where it has been
/// done before, and with `IncompleteProposal` where a declared byte is
/// missing or the payload is not that of an event; else the payload is sealed.
pub open spec fn finalize_spec(p: RotationProposalView) -> Result<
    RotationProposalView,
    RoundLoaderError,
> {
    if p.assembler.sealed {
        Err(RoundLoaderError::AlreadyInitialized)
    } else {
        match payload_spec(p.assembler) {
            None => Err(RoundLoaderError::IncompleteProposal),
            Some(payload) => match decode_spec(payload) {
                None => Err(RoundLoaderError::IncompleteProposal),
                Some(event) => Ok(
                    RotationProposalView {
                        key: p.key,
                        ballot: p.ballot,
                        assembler: AssemblerView {
                            buffer: p.assembler.buffer,
                            written: p.assembler.written,
                            sealed: true,
                        },
                    },
                ),
            },
        }
    }
}

/// What a vote on a rotation proposal does: refused with `IncompleteProposal`
/// before the proposal is finalized and with `InvalidRelayRound` where the
/// registry does not hold the proposal's round; else as `vote_spec` says for
/// that round.
pub open spec fn proposal_vote_spec(
    p: RotationProposalView,
    rounds: Seq<RelayRoundView>,
    relay: Pubkey,
    vote: Vote,
    now: int,
) -> Result<RotationProposalView, RoundLoaderError> {
    if !p.assembler.sealed {
        Err(RoundLoaderError::IncompleteProposal)
    } else {
        match round_at(rounds, p.ballot.round_number) {
            None => Err(RoundLoaderError::InvalidRelayRound),
            Some(round) => match vote_spec(p.ballot, round, relay, vote, now) {
                Ok(ballot) => Ok(
                    RotationProposalView { key: p.key, ballot, assembler: p.assembler },
                ),
                Err(e) => Err(e),
            },
        }
    }
}

/// What executing a rotation does to the registry.
///
/// Refused with `IncompleteProposal` unless the proposal is finalized and has
/// reached its quorum. Refused with `InvalidRelayRound` unless the proposal
/// was voted by the current round, `new_round_number` is the current round
/// number plus one, and the event names that same number. Otherwise the round
/// of the event is appended and becomes the current one.
pub open spec fn execute_rotation_spec(
    rounds: Seq<RelayRoundView>,
    p: RotationProposalView,
    new_round_number: u32,
) -> Result<Seq<RelayRoundView>, RoundLoaderError> {
    if !p.ballot.executed || p.event() is None {
        Err(RoundLoaderError::IncompleteProposal)
    } else if rounds.len() == 0 || p.ballot.round_number != rounds.last().round_number
        || new_round_number != rounds.last().round_number + 1 || p.event()->Some_0.round_num
        != new_round_number {
        Err(RoundLoaderError::InvalidRelayRound)
    } else {
        Ok(
            rounds.push(
                RelayRoundView {
                    round_number: new_round_number,
                    round_end: p.event()->Some_0.round_end,
                    relays: p.event()->Some_0.relays,
                },
            ),
        )
    }
}

/// Executing a rotation keeps the registry consistent and advances the
/// current round number by exactly one; the rounds before stay as they were.
pub proof fn law_rotation_advances_by_one(
    rounds: Seq<RelayRoundView>,
    p: RotationProposalView,
    new_round_number: u32,
)
    requires
        registry_wf(rounds),
    ensures
        execute_rotation_spec(rounds, p, new_round_number) matches Ok(next) ==> {
            &&& registry_wf(next)
            &&& next.len() == rounds.len() + 1
            &&& next.last().round_number == rounds.last().round_number + 1
            &&& next.last().round_number == new_round_number
            &&& next.last().relays == p.event()->Some_0.relays
            &&& next.last().round_end == p.event()->Some_0.round_end
            &&& forall|i: int| 0 <= i < rounds.len() ==> next[i] == rounds[i]
            &&& forall|n: u32|
                round_at(rounds, n) is Some ==> round_at(next, n) == round_at(rounds, n)
        },
{
    if let Ok(next) = execute_rotation_spec(rounds, p, new_round_number) {
        let n = rounds.len() as int;
        assert(rounds[n - 1].round_number == rounds[0].round_number + (n - 1));
        assert(next[0] == rounds[0]);
    }
}

/// A rotation proposal takes effect once: after it has been executed, every
/// further attempt to execute it is refused with `InvalidRelayRound`.
pub proof fn law_rotation_executes_once(
    rounds: Seq<RelayRoundView>,
    p: RotationProposalView,
    new_round_number: u32,
    again: u32,
)
    requires
        execute_rotation_spec(rounds, p, new_round_number) is Ok,
    ensures
        execute_rotation_spec(
            execute_rotation_spec(rounds, p, new_round_number)->Ok_0,
            p,
            again,
        ) == Err::<Seq<RelayRoundView>, RoundLoaderError>(RoundLoaderError::InvalidRelayRound),
{
}

/// A finalized proposal takes no further chunk and cannot be finalized again:
/// both are refused with `AlreadyInitialized`, so its event never changes.
pub proof fn law_finalized_proposal_is_immutable(
    p: RotationProposalView,
    offset: nat,
    bytes: Seq<u8>,
)
    requires
        finalize_spec(p) is Ok,
    ensures
        finalize_spec(p)->Ok_0.open_for_voting(),
        finalize_spec(p)->Ok_0.event() is Some,
        proposal_write_spec(finalize_spec(p)->Ok_0, offset, bytes) == Err::<
            RotationProposalView,
            RoundLoaderError,
        >(RoundLoaderError::AlreadyInitialized),
        finalize_spec(finalize_spec(p)->Ok_0) == Err::<RotationProposalView, RoundLoaderError>(
            RoundLoaderError::AlreadyInitialized,
        ),
{
    let q = finalize_spec(p)->Ok_0;
    assert(payload_spec(q.assembler) == payload_spec(p.assembler));
}

/// A proposal reaches the executable state only through votes: before it is
/// finalized every vote is refused, and every execution as well.
pub proof fn law_unfinalized_proposal_is_inert(
    p: RotationProposalView,
    rounds: Seq<RelayRoundView>,
    relay: Pubkey,
    vote: Vote,
    now: int,
    new_round_number: u32,
)
    requires
        !p.open_for_voting(),
    ensures
        proposal_vote_spec(p, rounds, relay, vote, now) == Err::<
            RotationProposalView,
            RoundLoaderError,
        >(RoundLoaderError::IncompleteProposal),
        execute_rotation_spec(rounds, p, new_round_number) == Err::<
            Seq<RelayRoundView>,
            RoundLoaderError,
        >(RoundLoaderError::IncompleteProposal),
{
}

/// The chunks written to a proposal one after another, first to last; the
/// first refusal ends it.
pub open spec fn proposal_write_all(p: RotationProposalView, chunks: Seq<Chunk>) -> Result<
    RotationProposalView,
    RoundLoaderError,
>
    decreases chunks.len(),
{
    if chunks.len() == 0 {
        Ok(p)
    } else {
        match proposal_write_all(p, chunks.drop_last()) {
            Ok(mid) => proposal_write_spec(mid, chunks.last().offset, chunks.last().bytes),
            Err(e) => Err(e),
        }
    }
}

/// A run of writes to a proposal is the same run of writes to its buffer.
pub proof fn lemma_proposal_writes_go_to_the_buffer(p: RotationProposalView, chunks: Seq<Chunk>)
    ensures
        proposal_write_all(p, chunks) == match write_all(p.assembler, chunks) {
            Ok(assembler) => Ok::<RotationProposalView, RoundLoaderError>(
                RotationProposalView { key: p.key, ballot: p.ballot, assembler },
            ),
            Err(e) => Err::<RotationProposalView, RoundLoaderError>(e),
        },
    decreases chunks.len(),
{
    if chunks.len() > 0 {
        lemma_proposal_writes_go_to_the_buffer(p, chunks.drop_last());
    }
}

/// The order in which the chunks of a payload are written does not matter:
/// non-overlapping chunks, written to a proposal in any order, leave the same
/// proposal, and finalizing it gives the same outcome and the same event.
pub proof fn law_chunk_order_does_not_change_the_event(
    p: RotationProposalView,
    chunks: Seq<Chunk>,
    order: Seq<int>,
)
    requires
        p.assembler.wf(),
        !p.assembler.sealed,
        all_fit(chunks, p.assembler.buffer.len()),
        pairwise_apart(chunks),
        is_permutation(order, chunks.len()),
    ensures
        proposal_write_all(p, chunks) is Ok,
        proposal_write_all(p, rearranged(chunks, order)) == proposal_write_all(p, chunks),
        finalize_spec(proposal_write_all(p, rearranged(chunks, order))->Ok_0) == finalize_spec(
            proposal_write_all(p, chunks)->Ok_0,
        ),
{
    law_chunk_order_is_irrelevant(p.assembler, chunks, order);
    lemma_proposal_writes_go_to_the_buffer(p, chunks);
    lemma_proposal_writes_go_to_the_buffer(p, rearranged(chunks, order));
}

/// Chunks that together carry the payload of an event make a proposal that
/// finalizes to that event: when the chunks do not overlap, lie inside the
/// buffer, and every byte of the event's payload lies in a chunk that carries
/// it, then after the writes, in any order, finalizing is accepted and the
/// proposal's event is the one that was written.
pub proof fn law_written_event_is_the_finalized_event(
    p: RotationProposalView,
    chunks: Seq<Chunk>,
    event: RotationEventView,
)
    requires
        p.assembler.wf(),
        !p.assembler.sealed,
        all_fit(chunks, p.assembler.buffer.len()),
        pairwise_apart(chunks),
        valid_relays(event.relays),
        forall|i: int| 0 <= i < encode_event_with_len(event).len() ==> covered(chunks, i),
        forall|i: int, k: int|
            0 <= i < encode_event_with_len(event).len() && 0 <= k < chunks.len() && (
            #[trigger] chunks[k]).covers(i) ==> chunks[k].bytes[i - chunks[k].offset]
                == #[trigger] encode_event_with_len(event)[i],
    ensures
        proposal_write_all(p, chunks) is Ok,
        finalize_spec(proposal_write_all(p, chunks)->Ok_0) is Ok,
        finalize_spec(proposal_write_all(p, chunks)->Ok_0)->Ok_0.event() == Some(event),
{
    let payload = encode_event_with_len(event);
    lemma_encoding_fields(payload, event);
    law_decode_inverts_encode(event);
    law_covering_chunks_assemble_payload(p.assembler, chunks, payload);
    lemma_write_all_pointwise(p.assembler, chunks);
    lemma_proposal_writes_go_to_the_buffer(p, chunks);
    let written = proposal_write_all(p, chunks)->Ok_0;
    let done = finalize_spec(written)->Ok_0;
    assert(payload_spec(done.assembler) == payload_spec(written.assembler));
}

/// Finalizing before the payload is fully written is refused: where a byte
/// that the payload declares has not been written, the outcome is
/// `IncompleteProposal`.
pub proof fn law_finalize_needs_full_coverage(p: RotationProposalView, position: int)
    requires
        p.assembler.wf(),
        !p.assembler.sealed,
        0 <= position < declared_len(p.assembler),
        position < p.assembler.buffer.len() ==> !p.assembler.written[position],
    ensures
        finalize_spec(p) == Err::<RotationProposalView, RoundLoaderError>(
            RoundLoaderError::IncompleteProposal,
        ),
{
    law_missing_byte_means_incomplete(p.assembler, position);
}

/// A rotation proposal.
pub struct RelayRoundProposal {
    key: ProposalKey,
    ballot: Ballot,
    assembler: ChunkedEventAssembler,
}

impl View for RelayRoundProposal {
    type V = RotationProposalView;

    closed spec fn view(&self) -> RotationProposalView {
        RotationProposalView { key: self.key, ballot: self.ballot@, assembler: self.assembler@ }
    }
}

impl RelayRoundProposal {
    /// What identifies the proposal.
    pub fn key(&self) -> (key: ProposalKey)
        ensures
            key == self@.key,
    {
        self.key
    }

    /// The voting state of the proposal.
    pub fn ballot(&self) -> (ballot: &Ballot)
        ensures
            ballot@ == self@.ballot,
    {
        &self.ballot
    }

    /// Whether the proposal has been finalized.
    pub fn is_initialized(&self) -> (open: bool)
        ensures
            open == self@.open_for_voting(),
    {
        self.assembler.is_sealed()
    }

    /// Whether the quorum has been reached.
    pub fn is_executed(&self) -> (done: bool)
        ensures
            done == self@.ballot.executed,
    {
        self.ballot.is_executed()
    }

    /// The event of the proposal: `Some` once the proposal is finalized.
    pub fn event(&self) -> (event: Option<RelayRoundProposalEvent>)
        ensures
            match event {
                Some(e) => self@.event() == Some(e@),
                None => self@.event() is None,
            },
    {
        if !self.assembler.is_sealed() {
            return None;
        }
        match self.assembler.payload() {
            Some(payload) => RelayRoundProposalEvent::unpack(&payload),
            None => None,
        }
    }

    /// Writes a chunk of the payload, as `proposal_write_spec` says. On a
    /// refusal the proposal is unchanged.
    pub fn write(&mut self, offset: u32, bytes: &Vec<u8>) -> (outcome: Result<(), RoundLoaderError>)
        ensures
            match proposal_write_spec(old(self)@, offset as nat, bytes@) {
                Ok(next) => outcome is Ok && final(self)@ == next,
                Err(e) => outcome == Err::<(), RoundLoaderError>(e) && final(self)@ == old(self)@,
            },
    {
        self.assembler.write(offset, bytes)
    }

    /// Finalizes the proposal, as `finalize_spec` says: checks that the
    /// payload is complete and decodes, and opens the proposal for voting.
    /// On a refusal the proposal is unchanged.
    pub fn finalize(&mut self) -> (outcome: Result<(), RoundLoaderError>)
        ensures
            match finalize_spec(old(self)@) {
                Ok(next) => outcome is Ok && final(self)@ == next,
                Err(e) => outcome == Err::<(), RoundLoaderError>(e) && final(self)@ == old(self)@,
            },
    {
        if self.assembler.is_sealed() {
            return Err(RoundLoaderError::AlreadyInitialized);
        }
        let payload = match self.assembler.payload() {
            Some(payload) => payload,
            None => {
                return Err(RoundLoaderError::IncompleteProposal);
            },
        };
        match RelayRoundProposalEvent::unpack(&payload) {
            Some(_) => {
                self.assembler.seal();
                Ok(())
            },
            None => Err(RoundLoaderError::IncompleteProposal),
        }
    }

    /// Records the vote of `relay` at time `now`, as `proposal_vote_spec`
    /// says. On a refusal the proposal is unchanged.
    pub fn vote(&mut self, registry: &RoundRegistry, relay: &Pubkey, vote: Vote, now: i64) -> (outcome:
        Result<(), RoundLoaderError>)
        ensures
            match proposal_vote_spec(old(self)@, registry@, *relay, vote, now as int) {
                Ok(next) => outcome is Ok && final(self)@ == next,
                Err(e) => outcome == Err::<(), RoundLoaderError>(e) && final(self)@ == old(self)@,
            },
    {
        if !self.assembler.is_sealed() {
            return Err(RoundLoaderError::IncompleteProposal);
        }
        match registry.round(self.ballot.round_number()) {
            None => Err(RoundLoaderError::InvalidRelayRound),
            Some(round) => self.ballot.vote(round, relay, vote, now),
        }
    }
}

/// Every round since the first; the last one is the current round.
pub struct RoundRegistry {
    rounds: Vec<RelayRound>,
}

impl View for RoundRegistry {
    type V = Seq<RelayRoundView>;

    closed spec fn view(&self) -> Seq<RelayRoundView> {
        self.rounds@.map_values(|r: RelayRound| r@)
    }
}

impl RoundRegistry {
    /// What holds of every registry that exists at run time.
    #[verifier::type_invariant]
    pub open spec fn inv(&self) -> bool {
        registry_wf(self@)
    }

    /// A registry without any round.
    pub fn new() -> (registry: RoundRegistry)
        ensures
            registry@ == Seq::<RelayRoundView>::empty(),
    {
        let registry = RoundRegistry { rounds: Vec::new() };
        assert(registry@ =~= Seq::<RelayRoundView>::empty());
        registry
    }

    /// Whether the first round has been created.
    pub fn is_initialized(&self) -> (yes: bool)
        ensures
            yes == (self@.len() > 0),
    {
        self.rounds.len() > 0
    }

    /// The number of the current round; `None` before the first round.
    pub fn current_round_number(&self) -> (number: Option<u32>)
        ensures
            match number {
                Some(n) => current_round(self@) is Some && n == current_round(
                    self@,
                )->Some_0.round_number,
                None => current_round(self@) is None,
            },
    {
        let n = self.rounds.len();
        if n == 0 {
            None
        } else {
            Some(self.rounds[n - 1].round_number)
        }
    }

    /// The current round; `None` before the first round.
    pub fn current(&self) -> (round: Option<&RelayRound>)
        ensures
            match round {
                Some(r) => current_round(self@) == Some(r@),
                None => current_round(self@) is None,
            },
    {
        let n = self.rounds.len();
        if n == 0 {
            None
        } else {
            Some(&self.rounds[n - 1])
        }
    }

    /// The round with the given number; `None` where the registry does not hold it.
    pub fn round(&self, number: u32) -> (round: Option<&RelayRound>)
        ensures
            match round {
                Some(r) => round_at(self@, number) == Some(r@),
                None => round_at(self@, number) is None,
            },
    {
        let n = self.rounds.len();
        if n == 0 {
            return None;
        }
        let first = self.rounds[0].round_number;
        if number < first {
            return None;
        }
        let index = (number - first) as usize;
        if index >= n {
            return None;
        }
        Some(&self.rounds[index])
    }

    /// Creates the first round. Refused with `AlreadyInitialized` where the
    /// registry holds a round already; else the registry holds exactly the
    /// new round, whose number is the current round number.
    pub fn initialize(&mut self, round_number: u32, round_end: u32, relays: RelaySet) -> (outcome:
        Result<(), RoundLoaderError>)
        ensures
            old(self)@.len() > 0 ==> outcome == Err::<(), RoundLoaderError>(
                RoundLoaderError::AlreadyInitialized,
            ) && final(self)@ == old(self)@,
            old(self)@.len() == 0 ==> outcome is Ok && final(self)@ == seq![
                RelayRoundView { round_number, round_end, relays: relays@ },
            ],
            registry_wf(final(self)@),
    {
        proof {
            use_type_invariant(&*self);
            use_type_invariant(&relays);
        }
        if self.rounds.len() > 0 {
            return Err(RoundLoaderError::AlreadyInitialized);
        }
        let ghost first = RelayRoundView { round_number, round_end, relays: relays@ };
        let mut rounds: Vec<RelayRound> = Vec::new();
        rounds.push(RelayRound { round_number, round_end, relays });
        assert(rounds@.map_values(|r: RelayRound| r@) =~= seq![first]);
        self.rounds = rounds;
        Ok(())
    }

    /// Creates a rotation proposal for the current round, as
    /// `propose_rotation_spec` says.
    pub fn propose_rotation(
        &self,
        author: Pubkey,
        event_timestamp: u32,
        event_transaction_lt: u64,
        event_configuration: Pubkey,
    ) -> (proposal: Result<RelayRoundProposal, RoundLoaderError>)
        ensures
            match propose_rotation_spec(
                self@,
                ProposalKey { author, event_timestamp, event_transaction_lt, event_configuration },
            ) {
                Ok(p) => proposal is Ok && proposal->Ok_0@ == p,
                Err(e) => proposal is Err && proposal->Err_0 == e,
            },
    {
        let key = ProposalKey { author, event_timestamp, event_transaction_lt, event_configuration };
        match self.current() {
            None => Err(RoundLoaderError::InvalidRelayRound),
            Some(round) => Ok(
                RelayRoundProposal {
                    key,
                    ballot: Ballot::new(round),
                    assembler: ChunkedEventAssembler::new(PROPOSAL_EVENT_CAPACITY),
                },
            ),
        }
    }

    /// Executes a rotation proposal, as `execute_rotation_spec` says. On a
    /// refusal the registry is unchanged.
    pub fn execute_rotation(&mut self, proposal: &RelayRoundProposal, new_round_number: u32) -> (outcome:
        Result<(), RoundLoaderError>)
        ensures
            match execute_rotation_spec(old(self)@, proposal@, new_round_number) {
                Ok(next) => outcome is Ok && final(self)@ == next,
                Err(e) => outcome == Err::<(), RoundLoaderError>(e) && final(self)@ == old(self)@,
            },
            registry_wf(final(self)@),
    {
        proof {
            use_type_invariant(&*self);
        }
        if !proposal.is_executed() {
            return Err(RoundLoaderError::IncompleteProposal);
        }
        let event = match proposal.event() {
            Some(event) => event,
            None => {
                return Err(RoundLoaderError::IncompleteProposal);
            },
        };
        let n = self.rounds.len();
        if n == 0 {
            return Err(RoundLoaderError::InvalidRelayRound);
        }
        let current = self.rounds[n - 1].round_number;
        if proposal.ballot.round_number() != current || current == u32::MAX || new_round_number
            != current + 1 || event.round_num != new_round_number {
            return Err(RoundLoaderError::InvalidRelayRound);
        }
        proof {
            use_type_invariant(&event.relays);
            law_rotation_advances_by_one(self@, proposal@, new_round_number);
        }
        let ghost before = self@;
        let ghost added = RelayRoundView {
            round_number: new_round_number,
            round_end: event.round_end,
            relays: event.relays@,
        };
        let mut rounds: Vec<RelayRound> = Vec::new();
        assert(rounds@.map_values(|r: RelayRound| r@) =~= Seq::<RelayRoundView>::empty());
        core::mem::swap(&mut self.rounds, &mut rounds);
        rounds.push(
            RelayRound {
                round_number: new_round_number,
                round_end: event.round_end,
                relays: event.relays,
            },
        );
        assert(rounds@.map_values(|r: RelayRound| r@) =~= before.push(added));
        self.rounds = rounds;
        Ok(())
    }
}

} // verus!
