//! Error kinds reported by the governance core and by its account tooling.

use solana_program::program_error::ProgramError;
use vstd::prelude::*;
use vstd::string::StringExecFns;

verus! {

/// `solana_program::program_error::ProgramError`, the error type of the
/// host, made known by its own definition: its variants are read from the
/// host's crate, and nothing is assumed of them.
#[verifier::external_type_specification]
pub struct ExProgramError(solana_program::program_error::ProgramError);

/// Ways in which the governance core refuses a request.
///
/// A refused request leaves every record as it was.
#[derive(Clone, Copy, Debug, PartialEq, Eq, Structural)]
pub enum GovernanceError {
    /// Inserting the option would grow the proposal beyond the storage reserved
    /// for it. `new_size` is the footprint of the first option that does not
    /// fit, `current_size` the accounted size with that option included.
    CapacityExceeded { new_size: u128, current_size: u128, account_size: u128 },
    /// The proposal is no longer being drafted or signed off.
    InvalidStateCannotEdit,
    /// The voting deadline has not passed and no early end was granted.
    VotingStillInProgress,
    /// The voter already has a live vote on the proposal.
    DuplicateVote,
    /// The percentages of an approving vote break a bound.
    InvalidVoteWeights,
    /// The operation belongs to an option that lost the vote.
    CannotExecuteDefeatedOption,
    /// The proposal's state does not allow operations to run.
    InvalidStateCannotExecuteTransaction,
    /// The operation is not the next one of its option.
    OutOfOrderExecution,
    /// The delay between the decision and the operation has not passed.
    HoldUpTimeNotElapsed,
    /// The size of the proposal's record does not fit the machine's word.
    CannotCalculateSizeOfProposalData,
    /// The proposal is neither being drafted nor being signed off.
    InvalidStateCannotSignOff,
    /// The proposal is not in its voting period.
    InvalidStateCannotVote,
    /// The proposal never reached its voting period, or was cancelled.
    InvalidStateCannotFinalize,
    /// The proposal has already been decided or cancelled.
    InvalidStateCannotCancelProposal,
    /// The named option does not exist.
    InvalidOptionIndex,
    /// The proposal has no pool for denying votes.
    DenyVoteIsNotAllowed,
    /// The voter has no live vote on the proposal.
    VoteNotFound,
    /// A tally or a counter would leave the range of its type.
    ArithmeticOverflow,
}

/// The result of a request that is refused for the given reason, or granted where there is none.
pub open spec fn refused_or_done(refusal: Option<GovernanceError>) -> Result<(), GovernanceError> {
    match refusal {
        Some(error) => Err(error),
        None => Ok(()),
    }
}

/// Numeric code of the first governance error; the others follow in declaration order.
pub const GOVERNANCE_ERROR_BASE: u32 = 500;

impl GovernanceError {
    /// Position of the variant in the declaration, starting at zero.
    pub open spec fn ordinal(self) -> nat {
        match self {
            GovernanceError::CapacityExceeded { .. } => 0,
            GovernanceError::InvalidStateCannotEdit => 1,
            GovernanceError::VotingStillInProgress => 2,
            GovernanceError::DuplicateVote => 3,
            GovernanceError::InvalidVoteWeights => 4,
            GovernanceError::CannotExecuteDefeatedOption => 5,
            GovernanceError::InvalidStateCannotExecuteTransaction => 6,
            GovernanceError::OutOfOrderExecution => 7,
            GovernanceError::HoldUpTimeNotElapsed => 8,
            GovernanceError::CannotCalculateSizeOfProposalData => 9,
            GovernanceError::InvalidStateCannotSignOff => 10,
            GovernanceError::InvalidStateCannotVote => 11,
            GovernanceError::InvalidStateCannotFinalize => 12,
            GovernanceError::InvalidStateCannotCancelProposal => 13,
            GovernanceError::InvalidOptionIndex => 14,
            GovernanceError::DenyVoteIsNotAllowed => 15,
            GovernanceError::VoteNotFound => 16,
            GovernanceError::ArithmeticOverflow => 17,
        }
    }

    /// The code under which the error travels as a custom program error.
    pub open spec fn code(self) -> nat {
        GOVERNANCE_ERROR_BASE as nat + self.ordinal()
    }

    /// Returns the numeric code of the error.
    pub fn error_code(&self) -> (code: u32)
        ensures
            code == self.code(),
            500 <= code <= 517,
    {
        match self {
            GovernanceError::CapacityExceeded { .. } => GOVERNANCE_ERROR_BASE,
            GovernanceError::InvalidStateCannotEdit => GOVERNANCE_ERROR_BASE + 1,
            GovernanceError::VotingStillInProgress => GOVERNANCE_ERROR_BASE + 2,
            GovernanceError::DuplicateVote => GOVERNANCE_ERROR_BASE + 3,
            GovernanceError::InvalidVoteWeights => GOVERNANCE_ERROR_BASE + 4,
            GovernanceError::CannotExecuteDefeatedOption => GOVERNANCE_ERROR_BASE + 5,
            GovernanceError::InvalidStateCannotExecuteTransaction => GOVERNANCE_ERROR_BASE + 6,
            GovernanceError::OutOfOrderExecution => GOVERNANCE_ERROR_BASE + 7,
            GovernanceError::HoldUpTimeNotElapsed => GOVERNANCE_ERROR_BASE + 8,
            GovernanceError::CannotCalculateSizeOfProposalData => GOVERNANCE_ERROR_BASE + 9,
            GovernanceError::InvalidStateCannotSignOff => GOVERNANCE_ERROR_BASE + 10,
            GovernanceError::InvalidStateCannotVote => GOVERNANCE_ERROR_BASE + 11,
            GovernanceError::InvalidStateCannotFinalize => GOVERNANCE_ERROR_BASE + 12,
            GovernanceError::InvalidStateCannotCancelProposal => GOVERNANCE_ERROR_BASE + 13,
            GovernanceError::InvalidOptionIndex => GOVERNANCE_ERROR_BASE + 14,
            GovernanceError::DenyVoteIsNotAllowed => GOVERNANCE_ERROR_BASE + 15,
            GovernanceError::VoteNotFound => GOVERNANCE_ERROR_BASE + 16,
            GovernanceError::ArithmeticOverflow => GOVERNANCE_ERROR_BASE + 17,
        }
    }
}

impl From<GovernanceError> for ProgramError {
    /// The error as a custom program error with the error's code.
    fn from(e: GovernanceError) -> (error: ProgramError) {
        ProgramError::Custom(e.error_code())
    }
}

impl vstd::std_specs::convert::FromSpecImpl<GovernanceError> for ProgramError {
    open spec fn obeys_from_spec() -> bool {
        true
    }

    open spec fn from_spec(e: GovernanceError) -> ProgramError {
        ProgramError::Custom(e.code() as u32)
    }
}

/// Errors of the account tooling.
#[derive(Clone, Copy, Debug, PartialEq, Eq, Structural)]
pub enum GovernanceToolsError {
    /// Account already initialized
    AccountAlreadyInitialized,
    /// Account doesn't exist
    AccountDoesNotExist,
    /// Invalid account owner
    InvalidAccountOwner,
    /// Invalid Account type
    InvalidAccountType,
    /// Creating account with pre-defined size but it's less than minimum necessary
    CreateAccountPrefetchSpaceExceeded,
}

/// Numeric code of the first tooling error; the others follow in declaration order.
pub const GOVERNANCE_TOOLS_ERROR_BASE: u32 = 1100;

impl GovernanceToolsError {
    /// Position of the variant in the declaration, starting at zero.
    pub open spec fn ordinal(self) -> nat {
        match self {
            GovernanceToolsError::AccountAlreadyInitialized => 0,
            GovernanceToolsError::AccountDoesNotExist => 1,
            GovernanceToolsError::InvalidAccountOwner => 2,
            GovernanceToolsError::InvalidAccountType => 3,
            GovernanceToolsError::CreateAccountPrefetchSpaceExceeded => 4,
        }
    }

    /// The code under which the error travels as a custom program error.
    pub open spec fn code(self) -> nat {
        GOVERNANCE_TOOLS_ERROR_BASE as nat + self.ordinal()
    }

    /// The variant that travels under `code`, if there is one.
    pub open spec fn of_code(code: nat) -> Option<GovernanceToolsError> {
        if code == 1100 {
            Some(GovernanceToolsError::AccountAlreadyInitialized)
        } else if code == 1101 {
            Some(GovernanceToolsError::AccountDoesNotExist)
        } else if code == 1102 {
            Some(GovernanceToolsError::InvalidAccountOwner)
        } else if code == 1103 {
            Some(GovernanceToolsError::InvalidAccountType)
        } else if code == 1104 {
            Some(GovernanceToolsError::CreateAccountPrefetchSpaceExceeded)
        } else {
            None
        }
    }

    /// The human-readable text of the error.
    pub open spec fn text(self) -> Seq<char> {
        match self {
            GovernanceToolsError::AccountAlreadyInitialized => "Account already initialized"@,
            GovernanceToolsError::AccountDoesNotExist => "Account doesn't exist"@,
            GovernanceToolsError::InvalidAccountOwner => "Invalid account owner"@,
            GovernanceToolsError::InvalidAccountType => "Invalid Account type"@,
            GovernanceToolsError::CreateAccountPrefetchSpaceExceeded =>
                "Creating an account with prefetch space size too low to fit account data on creation"@,
        }
    }

    /// The line under which the error is logged: the text of the error
    /// behind the mark of the tooling's errors.
    pub open spec fn log_text(self) -> Seq<char> {
        "GOVERNANCE-TOOLS-ERROR: "@ + self.text()
    }

    /// Returns the numeric code of the error.
    pub fn error_code(&self) -> (code: u32)
        ensures
            code == self.code(),
            1100 <= code <= 1104,
    {
        match self {
            GovernanceToolsError::AccountAlreadyInitialized => GOVERNANCE_TOOLS_ERROR_BASE,
            GovernanceToolsError::AccountDoesNotExist => GOVERNANCE_TOOLS_ERROR_BASE + 1,
            GovernanceToolsError::InvalidAccountOwner => GOVERNANCE_TOOLS_ERROR_BASE + 2,
            GovernanceToolsError::InvalidAccountType => GOVERNANCE_TOOLS_ERROR_BASE + 3,
            GovernanceToolsError::CreateAccountPrefetchSpaceExceeded => GOVERNANCE_TOOLS_ERROR_BASE + 4,
        }
    }

    /// Decodes a numeric code; `None` where no tooling error has that code.
    pub fn from_u32(code: u32) -> (decoded: Option<GovernanceToolsError>)
        ensures
            decoded == Self::of_code(code as nat),
            decoded matches Some(e) ==> e.code() == code,
            decoded is None ==> forall|e: GovernanceToolsError| e.code() != code,
    {
        if code == 1100 {
            Some(GovernanceToolsError::AccountAlreadyInitialized)
        } else if code == 1101 {
            Some(GovernanceToolsError::AccountDoesNotExist)
        } else if code == 1102 {
            Some(GovernanceToolsError::InvalidAccountOwner)
        } else if code == 1103 {
            Some(GovernanceToolsError::InvalidAccountType)
        } else if code == 1104 {
            Some(GovernanceToolsError::CreateAccountPrefetchSpaceExceeded)
        } else {
            None
        }
    }

    /// Returns the text of the error.
    pub fn message(&self) -> (text: String)
        ensures
            text@ == self.text(),
    {
        match self {
            GovernanceToolsError::AccountAlreadyInitialized => "Account already initialized".to_owned(),
            GovernanceToolsError::AccountDoesNotExist => "Account doesn't exist".to_owned(),
            GovernanceToolsError::InvalidAccountOwner => "Invalid account owner".to_owned(),
            GovernanceToolsError::InvalidAccountType => "Invalid Account type".to_owned(),
            GovernanceToolsError::CreateAccountPrefetchSpaceExceeded =>
                "Creating an account with prefetch space size too low to fit account data on creation".to_owned(),
        }
    }

    /// Returns the line under which the error is logged.
    pub fn log_line(&self) -> (line: String)
        ensures
            line@ == self.log_text(),
    {
        let message = self.message();
        "GOVERNANCE-TOOLS-ERROR: ".to_owned().concat(message.as_str())
    }

    /// Name of the error family, as shown when a code is decoded.
    pub fn type_of() -> (name: &'static str)
        ensures
            name@ == "Governance Tools Error"@,
    {
        "Governance Tools Error"
    }
}

impl From<GovernanceToolsError> for ProgramError {
    /// The error as a custom program error with the error's code.
    fn from(e: GovernanceToolsError) -> (error: ProgramError) {
        ProgramError::Custom(e.error_code())
    }
}

impl vstd::std_specs::convert::FromSpecImpl<GovernanceToolsError> for ProgramError {
    open spec fn obeys_from_spec() -> bool {
        true
    }

    open spec fn from_spec(e: GovernanceToolsError) -> ProgramError {
        ProgramError::Custom(e.code() as u32)
    }
}

} // verus!
