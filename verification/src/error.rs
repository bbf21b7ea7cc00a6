//! The failure codes that operations of the bridge core return.

use vstd::prelude::*;

verus! {

/// Why an operation was refused. Every refusal is one of these; an operation
/// that returns one has changed nothing.
#[derive(Clone, Copy, Debug, PartialEq, Eq, Structural)]
pub enum RoundLoaderError {
    /// The voter is not a relay of the round that the proposal refers to.
    InvalidRelay,
    /// The round number does not continue the sequence of rounds.
    InvalidRelayRound,
    /// The relay's slot already holds a vote.
    RelayAlreadyVoted,
    /// The round that must vote has ended.
    RelayRoundExpired,
    /// The record exists already.
    AlreadyInitialized,
    /// A chunk reaches past the end of the payload buffer.
    InvalidChunkOffset,
    /// The proposal's payload is not completely written or does not decode,
    /// or the proposal has not reached the state that the operation needs.
    IncompleteProposal,
    /// Value movement is halted, globally or for this asset.
    EmergencyModeActive,
    /// A deposit is above the cap for one deposit.
    DepositLimitExceeded,
    /// A withdrawal is above the cap for one withdrawal.
    WithdrawalLimitExceeded,
    /// A withdrawal would take the day's total above the daily cap.
    DailyLimitExceeded,
    /// The caller does not hold the role that the operation asks for.
    Unauthorized,
    /// The effect of the proposal has been applied before.
    AlreadyExecuted,
}

impl RoundLoaderError {
    /// The number of the error, counted from zero in the order of declaration.
    pub open spec fn spec_code(self) -> u32 {
        match self {
            RoundLoaderError::InvalidRelay => 0,
            RoundLoaderError::InvalidRelayRound => 1,
            RoundLoaderError::RelayAlreadyVoted => 2,
            RoundLoaderError::RelayRoundExpired => 3,
            RoundLoaderError::AlreadyInitialized => 4,
            RoundLoaderError::InvalidChunkOffset => 5,
            RoundLoaderError::IncompleteProposal => 6,
            RoundLoaderError::EmergencyModeActive => 7,
            RoundLoaderError::DepositLimitExceeded => 8,
            RoundLoaderError::WithdrawalLimitExceeded => 9,
            RoundLoaderError::DailyLimitExceeded => 10,
            RoundLoaderError::Unauthorized => 11,
            RoundLoaderError::AlreadyExecuted => 12,
        }
    }

    /// The error that a code stands for, if any.
    pub open spec fn spec_from_code(code: u32) -> Option<RoundLoaderError> {
        if code == 0 {
            Some(RoundLoaderError::InvalidRelay)
        } else if code == 1 {
            Some(RoundLoaderError::InvalidRelayRound)
        } else if code == 2 {
            Some(RoundLoaderError::RelayAlreadyVoted)
        } else if code == 3 {
            Some(RoundLoaderError::RelayRoundExpired)
        } else if code == 4 {
            Some(RoundLoaderError::AlreadyInitialized)
        } else if code == 5 {
            Some(RoundLoaderError::InvalidChunkOffset)
        } else if code == 6 {
            Some(RoundLoaderError::IncompleteProposal)
        } else if code == 7 {
            Some(RoundLoaderError::EmergencyModeActive)
        } else if code == 8 {
            Some(RoundLoaderError::DepositLimitExceeded)
        } else if code == 9 {
            Some(RoundLoaderError::WithdrawalLimitExceeded)
        } else if code == 10 {
            Some(RoundLoaderError::DailyLimitExceeded)
        } else if code == 11 {
            Some(RoundLoaderError::Unauthorized)
        } else if code == 12 {
            Some(RoundLoaderError::AlreadyExecuted)
        } else {
            None
        }
    }

    /// The exit code under which the error leaves the program.
    pub fn code(&self) -> (code: u32)
        ensures
            code == self.spec_code(),
            code <= 12,
    {
        match self {
            RoundLoaderError::InvalidRelay => 0,
            RoundLoaderError::InvalidRelayRound => 1,
            RoundLoaderError::RelayAlreadyVoted => 2,
            RoundLoaderError::RelayRoundExpired => 3,
            RoundLoaderError::AlreadyInitialized => 4,
            RoundLoaderError::InvalidChunkOffset => 5,
            RoundLoaderError::IncompleteProposal => 6,
            RoundLoaderError::EmergencyModeActive => 7,
            RoundLoaderError::DepositLimitExceeded => 8,
            RoundLoaderError::WithdrawalLimitExceeded => 9,
            RoundLoaderError::DailyLimitExceeded => 10,
            RoundLoaderError::Unauthorized => 11,
            RoundLoaderError::AlreadyExecuted => 12,
        }
    }

    /// Reads an exit code back: `Some` for the thirteen codes in use, `None` above.
    pub fn from_code(code: u32) -> (error: Option<RoundLoaderError>)
        ensures
            error == Self::spec_from_code(code),
            error is Some <==> code <= 12,
            error matches Some(e) ==> e.spec_code() == code,
    {
        if code == 0 {
            Some(RoundLoaderError::InvalidRelay)
        } else if code == 1 {
            Some(RoundLoaderError::InvalidRelayRound)
        } else if code == 2 {
            Some(RoundLoaderError::RelayAlreadyVoted)
        } else if code == 3 {
            Some(RoundLoaderError::RelayRoundExpired)
        } else if code == 4 {
            Some(RoundLoaderError::AlreadyInitialized)
        } else if code == 5 {
            Some(RoundLoaderError::InvalidChunkOffset)
        } else if code == 6 {
            Some(RoundLoaderError::IncompleteProposal)
        } else if code == 7 {
            Some(RoundLoaderError::EmergencyModeActive)
        } else if code == 8 {
            Some(RoundLoaderError::DepositLimitExceeded)
        } else if code == 9 {
            Some(RoundLoaderError::WithdrawalLimitExceeded)
        } else if code == 10 {
            Some(RoundLoaderError::DailyLimitExceeded)
        } else if code == 11 {
            Some(RoundLoaderError::Unauthorized)
        } else if code == 12 {
            Some(RoundLoaderError::AlreadyExecuted)
        } else {
            None
        }
    }

    /// A one-line description of the error for people.
    pub fn message(&self) -> (text: &'static str)
        ensures
            text@ == self.spec_message(),
    {
        match self {
            RoundLoaderError::InvalidRelay => "Relay not in the current round",
            RoundLoaderError::InvalidRelayRound => "Invalid relay round",
            RoundLoaderError::RelayAlreadyVoted => "Relay already voted for proposal",
            RoundLoaderError::RelayRoundExpired => "Relay round expired",
            RoundLoaderError::AlreadyInitialized => "Record already initialized",
            RoundLoaderError::InvalidChunkOffset => "Chunk does not fit the payload buffer",
            RoundLoaderError::IncompleteProposal => "Proposal is incomplete",
            RoundLoaderError::EmergencyModeActive => "Emergency mode is active",
            RoundLoaderError::DepositLimitExceeded => "Deposit limit exceeded",
            RoundLoaderError::WithdrawalLimitExceeded => "Withdrawal limit exceeded",
            RoundLoaderError::DailyLimitExceeded => "Daily withdrawal limit exceeded",
            RoundLoaderError::Unauthorized => "Caller does not hold the required role",
            RoundLoaderError::AlreadyExecuted => "Proposal already executed",
        }
    }

    /// The text of `message`, as a sequence of characters.
    pub open spec fn spec_message(self) -> Seq<char> {
        match self {
            RoundLoaderError::InvalidRelay => "Relay not in the current round"@,
            RoundLoaderError::InvalidRelayRound => "Invalid relay round"@,
            RoundLoaderError::RelayAlreadyVoted => "Relay already voted for proposal"@,
            RoundLoaderError::RelayRoundExpired => "Relay round expired"@,
            RoundLoaderError::AlreadyInitialized => "Record already initialized"@,
            RoundLoaderError::InvalidChunkOffset => "Chunk does not fit the payload buffer"@,
            RoundLoaderError::IncompleteProposal => "Proposal is incomplete"@,
            RoundLoaderError::EmergencyModeActive => "Emergency mode is active"@,
            RoundLoaderError::DepositLimitExceeded => "Deposit limit exceeded"@,
            RoundLoaderError::WithdrawalLimitExceeded => "Withdrawal limit exceeded"@,
            RoundLoaderError::DailyLimitExceeded => "Daily withdrawal limit exceeded"@,
            RoundLoaderError::Unauthorized => "Caller does not hold the required role"@,
            RoundLoaderError::AlreadyExecuted => "Proposal already executed"@,
        }
    }
}

/// Every error has its own code, and a code read back gives the same error.
pub proof fn law_error_codes_round_trip(e: RoundLoaderError)
    ensures
        RoundLoaderError::spec_from_code(e.spec_code()) == Some(e),
{
}

} // verus!
