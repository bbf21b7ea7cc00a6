//! Deposits and withdrawal requests.
//!
//! A deposit is recorded once, behind the emergency gate and the deposit cap.
//! A withdrawal request is voted on by the relays of the current round. With
//! the quorum behind it, it waits for the withdrawal manager's sign-off and is
//! then executed: the amount is reserved against the caps and released, both
//! in one step.

use vstd::prelude::*;
use crate::error::RoundLoaderError;
use crate::gate::{emergency_active, halted, holds, ProxySettings, Role};
use crate::limiter::{check_and_reserve, check_deposit, check_withdrawal, reserve_spec};
use crate::registry::{current_round, round_at, RoundRegistry};
use crate::round::RelayRoundView;
use crate::state::{
    DepositToken, DepositTokenEventWithLen, DepositTokenMetaWithLen, Settings, TokenKind,
    WithdrawalTokenEventWithLen, WithdrawalTokenMeta, WithdrawalTokenMetaWithLen,
    WithdrawalTokenStatus,
};
use crate::types::{Pubkey, Vote};
use crate::voting::{vote_spec, Ballot, BallotView};

verus! {

/// What moves a withdrawal request from one state to the next.
#[derive(Clone, Copy, Debug, PartialEq, Eq, Structural)]
pub enum WithdrawalStep {
    /// The relays have confirmed the request with a quorum.
    QuorumReached,
    /// The request is handed to the withdrawal manager.
    AwaitApproval,
    /// The withdrawal manager signs the request off.
    Approve,
    /// The value is released.
    Release,
    /// The administrator of the asset withdraws the request.
    Cancel,
}

/// The state after a step, where the step is allowed in the state.
///
/// A request runs from `New` through `Pending`, `WaitingForApprove` and
/// `WaitingForRelease` to `Processed`, one step at a time; it can be
/// cancelled while `New` or `Pending`.
pub open spec fn next_status(status: WithdrawalTokenStatus, step: WithdrawalStep) -> Option<
    WithdrawalTokenStatus,
> {
    match (status, step) {
        (WithdrawalTokenStatus::New, WithdrawalStep::QuorumReached) => Some(
            WithdrawalTokenStatus::Pending,
        ),
        (WithdrawalTokenStatus::Pending, WithdrawalStep::AwaitApproval) => Some(
            WithdrawalTokenStatus::WaitingForApprove,
        ),
        (WithdrawalTokenStatus::WaitingForApprove, WithdrawalStep::Approve) => Some(
            WithdrawalTokenStatus::WaitingForRelease,
        ),
        (WithdrawalTokenStatus::WaitingForRelease, WithdrawalStep::Release) => Some(
            WithdrawalTokenStatus::Processed,
        ),
        (WithdrawalTokenStatus::New, WithdrawalStep::Cancel) => Some(
            WithdrawalTokenStatus::Cancelled,
        ),
        (WithdrawalTokenStatus::Pending, WithdrawalStep::Cancel) => Some(
            WithdrawalTokenStatus::Cancelled,
        ),
        _ => None,
    }
}

/// What taking a step gives: the next state where the step is allowed;
/// `AlreadyExecuted` for a request that has been processed; and
/// `IncompleteProposal` for a request in any other state.
pub open spec fn advance_spec(status: WithdrawalTokenStatus, step: WithdrawalStep) -> Result<
    WithdrawalTokenStatus,
    RoundLoaderError,
> {
    match next_status(status, step) {
        Some(next) => Ok(next),
        None => if status == WithdrawalTokenStatus::Processed {
            Err(RoundLoaderError::AlreadyExecuted)
        } else {
            Err(RoundLoaderError::IncompleteProposal)
        },
    }
}

/// How far a request has come; cancelled requests stand apart at the end.
pub open spec fn progress(status: WithdrawalTokenStatus) -> nat {
    match status {
        WithdrawalTokenStatus::New => 0,
        WithdrawalTokenStatus::Pending => 1,
        WithdrawalTokenStatus::WaitingForApprove => 2,
        WithdrawalTokenStatus::WaitingForRelease => 3,
        WithdrawalTokenStatus::Processed => 4,
        WithdrawalTokenStatus::Cancelled => 5,
    }
}

/// `Processed` and `Cancelled` are final: no step leads out of them. Every
/// allowed step moves a request forward, so no state is entered twice.
pub proof fn law_requests_only_move_forward(status: WithdrawalTokenStatus, step: WithdrawalStep)
    ensures
        status == WithdrawalTokenStatus::Processed || status == WithdrawalTokenStatus::Cancelled
            ==> next_status(status, step) is None,
        next_status(status, step) matches Some(next) ==> progress(next) > progress(status),
        next_status(status, step) == Some(WithdrawalTokenStatus::Cancelled) ==> (status
            == WithdrawalTokenStatus::New || status == WithdrawalTokenStatus::Pending) && step
            == WithdrawalStep::Cancel,
        next_status(status, step) == Some(WithdrawalTokenStatus::Processed) ==> status
            == WithdrawalTokenStatus::WaitingForRelease && step == WithdrawalStep::Release,
{
}

impl WithdrawalTokenStatus {
    /// Takes a step, as `advance_spec` says.
    pub fn advance(self, step: WithdrawalStep) -> (next: Result<
        WithdrawalTokenStatus,
        RoundLoaderError,
    >)
        ensures
            next == advance_spec(self, step),
    {
        match (self, step) {
            (WithdrawalTokenStatus::New, WithdrawalStep::QuorumReached) => Ok(
                WithdrawalTokenStatus::Pending,
            ),
            (WithdrawalTokenStatus::Pending, WithdrawalStep::AwaitApproval) => Ok(
                WithdrawalTokenStatus::WaitingForApprove,
            ),
            (WithdrawalTokenStatus::WaitingForApprove, WithdrawalStep::Approve) => Ok(
                WithdrawalTokenStatus::WaitingForRelease,
            ),
            (WithdrawalTokenStatus::WaitingForRelease, WithdrawalStep::Release) => Ok(
                WithdrawalTokenStatus::Processed,
            ),
            (WithdrawalTokenStatus::New, WithdrawalStep::Cancel) => Ok(
                WithdrawalTokenStatus::Cancelled,
            ),
            (WithdrawalTokenStatus::Pending, WithdrawalStep::Cancel) => Ok(
                WithdrawalTokenStatus::Cancelled,
            ),
            (WithdrawalTokenStatus::Processed, _) => Err(RoundLoaderError::AlreadyExecuted),
            _ => Err(RoundLoaderError::IncompleteProposal),
        }
    }

    /// Whether the request has come to its end.
    pub fn is_final(self) -> (yes: bool)
        ensures
            yes == (self == WithdrawalTokenStatus::Processed || self
                == WithdrawalTokenStatus::Cancelled),
    {
        match self {
            WithdrawalTokenStatus::Processed => true,
            WithdrawalTokenStatus::Cancelled => true,
            _ => false,
        }
    }
}

/// What the proxy has to do to release the value of a withdrawal.
#[derive(Clone, Copy, Debug)]
pub enum ReleaseAction {
    /// Mint `amount` of an asset of the other ledger to `recipient`.
    Mint { mint: Pubkey, recipient: Pubkey, amount: u64 },
    /// Pay `amount` of an asset of this ledger out of `vault` to `recipient`.
    Transfer { vault: Pubkey, recipient: Pubkey, amount: u64 },
}

/// The release that belongs to an asset of the given kind.
pub open spec fn release_for(kind: TokenKind, recipient: Pubkey, amount: u64) -> ReleaseAction {
    match kind {
        TokenKind::Ever { mint } => ReleaseAction::Mint { mint, recipient, amount },
        TokenKind::Solana { mint, vault } => ReleaseAction::Transfer { vault, recipient, amount },
    }
}

/// A withdrawal request as plain values.
pub ghost struct WithdrawalView {
    pub is_initialized: bool,
    pub ballot: BallotView,
    pub event: WithdrawalTokenEventWithLen,
    pub meta: WithdrawalTokenMetaWithLen,
}

impl WithdrawalView {
    /// Where the request stands.
    pub open spec fn status(self) -> WithdrawalTokenStatus {
        self.meta.data.status
    }

    /// The same request in another state.
    pub open spec fn with_status(self, status: WithdrawalTokenStatus) -> WithdrawalView {
        WithdrawalView {
            meta: WithdrawalTokenMetaWithLen {
                data: WithdrawalTokenMeta { status, ..self.meta.data },
                ..self.meta
            },
            ..self
        }
    }
}

/// What a deposit gives: `EmergencyModeActive` while value movement of the
/// asset is halted, whatever else holds; `DepositLimitExceeded` above the cap
/// for one deposit; else it is accepted.
pub open spec fn deposit_spec(proxy: ProxySettings, settings: Settings, amount: u64) -> Result<
    (),
    RoundLoaderError,
> {
    if halted(proxy, settings) {
        Err(RoundLoaderError::EmergencyModeActive)
    } else if amount > settings.deposit_limit {
        Err(RoundLoaderError::DepositLimitExceeded)
    } else {
        Ok(())
    }
}

/// What a vote on a withdrawal request does: `InvalidRelayRound` where the
/// registry does not hold the request's round; else as `vote_spec` says for
/// that round, and a new request that reaches its quorum becomes `Pending`.
pub open spec fn withdrawal_vote_spec(
    w: WithdrawalView,
    rounds: Seq<RelayRoundView>,
    relay: Pubkey,
    vote: Vote,
    now: int,
) -> Result<WithdrawalView, RoundLoaderError> {
    match round_at(rounds, w.ballot.round_number) {
        None => Err(RoundLoaderError::InvalidRelayRound),
        Some(round) => match vote_spec(w.ballot, round, relay, vote, now) {
            Err(e) => Err(e),
            Ok(ballot) => {
                let voted = WithdrawalView { ballot, ..w };
                if ballot.executed && w.status() == WithdrawalTokenStatus::New {
                    Ok(voted.with_status(WithdrawalTokenStatus::Pending))
                } else {
                    Ok(voted)
                }
            },
        },
    }
}

/// What handing a request to the withdrawal manager does.
pub open spec fn await_approval_spec(w: WithdrawalView) -> Result<WithdrawalView, RoundLoaderError> {
    match advance_spec(w.status(), WithdrawalStep::AwaitApproval) {
        Ok(next) => Ok(w.with_status(next)),
        Err(e) => Err(e),
    }
}

/// What the sign-off does: `Unauthorized` unless the caller is the
/// withdrawal manager; refused unless the request waits for approval;
/// `IncompleteProposal` where the relays' quorum is not behind the request;
/// refused with the limiter's error where the amount would not pass the caps
/// at time `now`; else the request waits for release.
pub open spec fn approve_spec(
    proxy: ProxySettings,
    settings: Settings,
    w: WithdrawalView,
    caller: Pubkey,
    now: i64,
) -> Result<WithdrawalView, RoundLoaderError> {
    if !holds(proxy, Role::WithdrawalManager, caller) {
        Err(RoundLoaderError::Unauthorized)
    } else {
        match advance_spec(w.status(), WithdrawalStep::Approve) {
            Err(e) => Err(e),
            Ok(next) => if !w.ballot.executed {
                Err(RoundLoaderError::IncompleteProposal)
            } else {
                match reserve_spec(settings, w.event.data.amount, now) {
                    Err(e) => Err(e),
                    Ok(_) => Ok(w.with_status(next)),
                }
            },
        }
    }
}

/// What cancelling does: `Unauthorized` unless the caller is the
/// administrator of the asset; refused unless the request is `New` or
/// `Pending`; else the request is cancelled.
pub open spec fn cancel_spec(settings: Settings, w: WithdrawalView, caller: Pubkey) -> Result<
    WithdrawalView,
    RoundLoaderError,
> {
    if !(settings.is_initialized && settings.admin == caller) {
        Err(RoundLoaderError::Unauthorized)
    } else {
        match advance_spec(w.status(), WithdrawalStep::Cancel) {
            Ok(next) => Ok(w.with_status(next)),
            Err(e) => Err(e),
        }
    }
}

/// What executing a withdrawal does.
///
/// `EmergencyModeActive` while value movement of the asset is halted,
/// whatever state the request is in. Then `AlreadyExecuted` for a processed
/// request and `IncompleteProposal` for one that does not wait for release,
/// or that does so without the relays' quorum behind it. Then the limiter's
/// error where the amount does not pass the caps. Else the amount is
/// reserved, the request is processed, and the release is handed back.
pub open spec fn withdraw_execute_spec(
    proxy: ProxySettings,
    settings: Settings,
    w: WithdrawalView,
    now: i64,
) -> Result<(Settings, WithdrawalView, ReleaseAction), RoundLoaderError> {
    if halted(proxy, settings) {
        Err(RoundLoaderError::EmergencyModeActive)
    } else {
        match advance_spec(w.status(), WithdrawalStep::Release) {
            Err(e) => Err(e),
            Ok(next) => if !w.ballot.executed {
                Err(RoundLoaderError::IncompleteProposal)
            } else {
                match reserve_spec(settings, w.event.data.amount, now) {
                    Err(e) => Err(e),
                    Ok(reserved) => Ok(
                        (
                            reserved,
                            w.with_status(next),
                            release_for(
                                settings.kind,
                                w.event.data.recipient_address,
                                w.event.data.amount,
                            ),
                        ),
                    ),
                }
            },
        }
    }
}

/// While value movement of an asset is halted, every deposit and every
/// execution of a withdrawal is refused with `EmergencyModeActive`, whatever
/// the votes, the state of the request, the amount or the time.
pub proof fn law_emergency_blocks_value_movement(
    proxy: ProxySettings,
    settings: Settings,
    w: WithdrawalView,
    deposit_amount: u64,
    now: i64,
)
    requires
        halted(proxy, settings),
    ensures
        deposit_spec(proxy, settings, deposit_amount) == Err::<(), RoundLoaderError>(
            RoundLoaderError::EmergencyModeActive,
        ),
        withdraw_execute_spec(proxy, settings, w, now) == Err::<
            (Settings, WithdrawalView, ReleaseAction),
            RoundLoaderError,
        >(RoundLoaderError::EmergencyModeActive),
{
}

/// Once the guardian has switched the emergency on for everything, it holds
/// for every asset; once the guardian has switched it off again, deposits and
/// executions are decided as before, for every asset whose own switch is off.
pub proof fn law_global_emergency_covers_every_asset(
    proxy: ProxySettings,
    guardian: Pubkey,
    settings: Settings,
    w: WithdrawalView,
    deposit_amount: u64,
    now: i64,
)
    requires
        holds(proxy, Role::Guardian, guardian),
        !proxy.emergency,
    ensures
        crate::gate::set_emergency_spec(proxy, guardian, true) is Ok,
        halted(crate::gate::set_emergency_spec(proxy, guardian, true)->Ok_0, settings),
        ({
            let on = crate::gate::set_emergency_spec(proxy, guardian, true)->Ok_0;
            let off = crate::gate::set_emergency_spec(on, guardian, false)->Ok_0;
            &&& crate::gate::set_emergency_spec(on, guardian, false) is Ok
            &&& deposit_spec(off, settings, deposit_amount) == deposit_spec(
                proxy,
                settings,
                deposit_amount,
            )
            &&& withdraw_execute_spec(off, settings, w, now) == withdraw_execute_spec(
                proxy,
                settings,
                w,
                now,
            )
        }),
{
}

/// A withdrawal is released once: after an execution has been accepted,
/// every further execution of the request is refused.
pub proof fn law_withdrawal_is_released_once(
    proxy: ProxySettings,
    settings: Settings,
    w: WithdrawalView,
    now: i64,
    later_proxy: ProxySettings,
    later_settings: Settings,
    later: i64,
)
    requires
        withdraw_execute_spec(proxy, settings, w, now) is Ok,
    ensures
        withdraw_execute_spec(proxy, settings, w, now)->Ok_0.1.status()
            == WithdrawalTokenStatus::Processed,
        withdraw_execute_spec(
            later_proxy,
            later_settings,
            withdraw_execute_spec(proxy, settings, w, now)->Ok_0.1,
            later,
        ) is Err,
        !halted(later_proxy, later_settings) ==> withdraw_execute_spec(
            later_proxy,
            later_settings,
            withdraw_execute_spec(proxy, settings, w, now)->Ok_0.1,
            later,
        ) == Err::<(Settings, WithdrawalView, ReleaseAction), RoundLoaderError>(
            RoundLoaderError::AlreadyExecuted,
        ),
{
}

/// A request is released only with a quorum and a passed check of the caps
/// behind it: it comes to wait for release only through the sign-off, which
/// asks for the caps, and to wait for the sign-off only from `Pending`, which
/// it reaches only by a vote that completes the quorum.
pub proof fn law_release_needs_quorum_and_caps(
    proxy: ProxySettings,
    settings: Settings,
    w: WithdrawalView,
    rounds: Seq<RelayRoundView>,
    relay: Pubkey,
    vote: Vote,
    caller: Pubkey,
    now: i64,
)
    ensures
        approve_spec(proxy, settings, w, caller, now) matches Ok(next) ==> {
            &&& w.status() == WithdrawalTokenStatus::WaitingForApprove
            &&& next.status() == WithdrawalTokenStatus::WaitingForRelease
            &&& w.ballot.executed
            &&& next.ballot == w.ballot
            &&& reserve_spec(settings, w.event.data.amount, now) is Ok
            &&& holds(proxy, Role::WithdrawalManager, caller)
        },
        await_approval_spec(w) matches Ok(next) ==> w.status() == WithdrawalTokenStatus::Pending,
        withdrawal_vote_spec(w, rounds, relay, vote, now as int) matches Ok(next) ==> (next.status()
            != w.status() ==> w.status() == WithdrawalTokenStatus::New && next.status()
            == WithdrawalTokenStatus::Pending && next.ballot.executed),
        withdraw_execute_spec(proxy, settings, w, now) matches Ok(done) ==> w.status()
            == WithdrawalTokenStatus::WaitingForRelease && w.ballot.executed && reserve_spec(
            settings,
            w.event.data.amount,
            now,
        ) == Ok::<Settings, RoundLoaderError>(done.0),
{
}

/// A withdrawal request: the voting state, what is asked for, and where the
/// request stands.
pub struct WithdrawalToken {
    pub is_initialized: bool,
    ballot: Ballot,
    pub event: WithdrawalTokenEventWithLen,
    pub meta: WithdrawalTokenMetaWithLen,
}

impl View for WithdrawalToken {
    type V = WithdrawalView;

    closed spec fn view(&self) -> WithdrawalView {
        WithdrawalView {
            is_initialized: self.is_initialized,
            ballot: self.ballot@,
            event: self.event,
            meta: self.meta,
        }
    }
}

impl WithdrawalToken {
    /// Makes a request of stored values.
    pub fn from_parts(
        is_initialized: bool,
        ballot: Ballot,
        event: WithdrawalTokenEventWithLen,
        meta: WithdrawalTokenMetaWithLen,
    ) -> (request: WithdrawalToken)
        ensures
            request@ == (WithdrawalView { is_initialized, ballot: ballot@, event, meta }),
    {
        WithdrawalToken { is_initialized, ballot, event, meta }
    }

    /// Whether the record is in use.
    pub fn is_initialized(&self) -> (yes: bool)
        ensures
            yes == self@.is_initialized,
    {
        self.is_initialized
    }

    /// The voting state of the request.
    pub fn ballot(&self) -> (ballot: &Ballot)
        ensures
            ballot@ == self@.ballot,
    {
        &self.ballot
    }

    /// Where the request stands.
    pub fn status(&self) -> (status: WithdrawalTokenStatus)
        ensures
            status == self@.status(),
    {
        self.meta.data.status
    }

    /// The amount asked for.
    pub fn amount(&self) -> (amount: u64)
        ensures
            amount == self@.event.data.amount,
    {
        self.event.data.amount
    }

    /// Records the vote of `relay` at time `now`, as `withdrawal_vote_spec`
    /// says. On a refusal the request is unchanged.
    pub fn vote(&mut self, registry: &RoundRegistry, relay: &Pubkey, vote: Vote, now: i64) -> (outcome:
        Result<(), RoundLoaderError>)
        ensures
            match withdrawal_vote_spec(old(self)@, registry@, *relay, vote, now as int) {
                Ok(next) => outcome is Ok && final(self)@ == next,
                Err(e) => outcome == Err::<(), RoundLoaderError>(e) && final(self)@ == old(self)@,
            },
    {
        let round = match registry.round(self.ballot.round_number()) {
            Some(round) => round,
            None => {
                return Err(RoundLoaderError::InvalidRelayRound);
            },
        };
        match self.ballot.vote(round, relay, vote, now) {
            Err(e) => Err(e),
            Ok(()) => {
                if self.ballot.is_executed() && self.meta.data.status == WithdrawalTokenStatus::New {
                    self.meta.data.status = WithdrawalTokenStatus::Pending;
                }
                Ok(())
            },
        }
    }

    /// Hands the request to the withdrawal manager, as `await_approval_spec`
    /// says. On a refusal the request is unchanged.
    pub fn await_approval(&mut self) -> (outcome: Result<(), RoundLoaderError>)
        ensures
            match await_approval_spec(old(self)@) {
                Ok(next) => outcome is Ok && final(self)@ == next,
                Err(e) => outcome == Err::<(), RoundLoaderError>(e) && final(self)@ == old(self)@,
            },
    {
        match self.meta.data.status.advance(WithdrawalStep::AwaitApproval) {
            Ok(next) => {
                self.meta.data.status = next;
                Ok(())
            },
            Err(e) => Err(e),
        }
    }

    /// The sign-off of the withdrawal manager, as `approve_spec` says. On a
    /// refusal the request is unchanged.
    pub fn approve(&mut self, proxy: &ProxySettings, settings: &Settings, caller: &Pubkey, now: i64) -> (outcome:
        Result<(), RoundLoaderError>)
        ensures
            match approve_spec(*proxy, *settings, old(self)@, *caller, now) {
                Ok(next) => outcome is Ok && final(self)@ == next,
                Err(e) => outcome == Err::<(), RoundLoaderError>(e) && final(self)@ == old(self)@,
            },
    {
        if !proxy.has_role(Role::WithdrawalManager, caller) {
            return Err(RoundLoaderError::Unauthorized);
        }
        let next = match self.meta.data.status.advance(WithdrawalStep::Approve) {
            Ok(next) => next,
            Err(e) => {
                return Err(e);
            },
        };
        if !self.ballot.is_executed() {
            return Err(RoundLoaderError::IncompleteProposal);
        }
        match check_withdrawal(settings, self.event.data.amount, now) {
            Err(e) => Err(e),
            Ok(()) => {
                self.meta.data.status = next;
                Ok(())
            },
        }
    }

    /// The administrator of the asset cancels the request, as `cancel_spec`
    /// says. On a refusal the request is unchanged.
    pub fn cancel(&mut self, settings: &Settings, caller: &Pubkey) -> (outcome: Result<
        (),
        RoundLoaderError,
    >)
        ensures
            match cancel_spec(*settings, old(self)@, *caller) {
                Ok(next) => outcome is Ok && final(self)@ == next,
                Err(e) => outcome == Err::<(), RoundLoaderError>(e) && final(self)@ == old(self)@,
            },
    {
        if !(settings.is_initialized && settings.admin == *caller) {
            return Err(RoundLoaderError::Unauthorized);
        }
        match self.meta.data.status.advance(WithdrawalStep::Cancel) {
            Ok(next) => {
                self.meta.data.status = next;
                Ok(())
            },
            Err(e) => Err(e),
        }
    }

    /// Executes the withdrawal at time `now`, as `withdraw_execute_spec`
    /// says: on success the amount is reserved in `settings`, the request is
    /// processed, and the release to perform is returned. On a refusal the
    /// request and the settings are unchanged.
    pub fn execute(&mut self, proxy: &ProxySettings, settings: &mut Settings, now: i64) -> (outcome:
        Result<ReleaseAction, RoundLoaderError>)
        ensures
            match withdraw_execute_spec(*proxy, *old(settings), old(self)@, now) {
                Ok(done) => outcome == Ok::<ReleaseAction, RoundLoaderError>(done.2)
                    && *final(settings) == done.0 && final(self)@ == done.1,
                Err(e) => outcome == Err::<ReleaseAction, RoundLoaderError>(e) && *final(settings)
                    == *old(settings) && final(self)@ == old(self)@,
            },
    {
        if emergency_active(proxy, settings) {
            return Err(RoundLoaderError::EmergencyModeActive);
        }
        let next = match self.meta.data.status.advance(WithdrawalStep::Release) {
            Ok(next) => next,
            Err(e) => {
                return Err(e);
            },
        };
        if !self.ballot.is_executed() {
            return Err(RoundLoaderError::IncompleteProposal);
        }
        let amount = self.event.data.amount;
        let recipient = self.event.data.recipient_address;
        let kind = settings.kind;
        match check_and_reserve(settings, amount, now) {
            Err(e) => Err(e),
            Ok(()) => {
                self.meta.data.status = next;
                Ok(
                    match kind {
                        TokenKind::Ever { mint } => ReleaseAction::Mint { mint, recipient, amount },
                        TokenKind::Solana { mint: _, vault } => ReleaseAction::Transfer {
                            vault,
                            recipient,
                            amount,
                        },
                    },
                )
            },
        }
    }
}

/// Creates a withdrawal request that the relays of the current round vote
/// on. `InvalidRelayRound` where there is no round yet; else the request is
/// `New`, with one empty slot per relay of the current round.
pub fn create_withdrawal_request(
    registry: &RoundRegistry,
    author: Pubkey,
    event: WithdrawalTokenEventWithLen,
    bounty: u64,
) -> (request: Result<WithdrawalToken, RoundLoaderError>)
    ensures
        current_round(registry@) is None ==> request is Err && request->Err_0
            == RoundLoaderError::InvalidRelayRound,
        current_round(registry@) matches Some(round) ==> request is Ok && request->Ok_0@ == (
        WithdrawalView {
            is_initialized: true,
            ballot: BallotView::fresh(round.round_number, round.relays.len()),
            event,
            meta: request->Ok_0@.meta,
        }) && request->Ok_0@.meta.data == (WithdrawalTokenMeta {
            author,
            status: WithdrawalTokenStatus::New,
            bounty,
        }) && request->Ok_0@.meta.len == crate::state::WITHDRAWAL_TOKEN_META_LEN,
{
    match registry.current() {
        None => Err(RoundLoaderError::InvalidRelayRound),
        Some(round) => Ok(
            WithdrawalToken {
                is_initialized: true,
                ballot: Ballot::new(round),
                event,
                meta: WithdrawalTokenMetaWithLen::new(author, WithdrawalTokenStatus::New, bounty),
            },
        ),
    }
}

/// Records a deposit, as `deposit_spec` says: refused while value movement
/// of the asset is halted and above the cap for one deposit; else the record
/// of the deposit is returned.
pub fn deposit(
    proxy: &ProxySettings,
    settings: &Settings,
    event: DepositTokenEventWithLen,
    meta: DepositTokenMetaWithLen,
) -> (record: Result<DepositToken, RoundLoaderError>)
    ensures
        match deposit_spec(*proxy, *settings, event.data.amount) {
            Ok(_) => record is Ok && record->Ok_0.is_initialized && record->Ok_0.event == event
                && record->Ok_0.meta == meta,
            Err(e) => record is Err && record->Err_0 == e,
        },
{
    if emergency_active(proxy, settings) {
        return Err(RoundLoaderError::EmergencyModeActive);
    }
    match check_deposit(settings, event.data.amount) {
        Err(e) => Err(e),
        Ok(()) => Ok(DepositToken { is_initialized: true, event, meta }),
    }
}

} // verus!
