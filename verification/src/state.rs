//! Lifecycle states of a proposal, vote types and option results.

use vstd::prelude::*;

verus! {

/// Where a proposal stands in its lifecycle.
#[derive(Clone, Copy, Debug, PartialEq, Eq, Structural)]
pub enum ProposalState {
    /// Initial state: options may still be inserted.
    Draft,
    /// Waiting for the required co-signers.
    SigningOff,
    /// Votes are accepted; the options are frozen.
    Voting,
    /// Finalised with at least one winning option whose operations may run.
    Succeeded,
    /// At least one attached operation has been run.
    Executing,
    /// Nothing is left to do.
    Completed,
    /// Withdrawn by its owner before a decision.
    Cancelled,
    /// Finalised without a winning option.
    Defeated,
    /// Like `Executing`, after an attached operation has failed.
    ExecutingWithErrors,
}

impl ProposalState {
    /// Options may be inserted only while the proposal is being drafted or signed off.
    pub open spec fn is_editable(self) -> bool {
        self == ProposalState::Draft || self == ProposalState::SigningOff
    }

    /// The states a proposal can be in once its vote has been finalised.
    pub open spec fn is_finalized(self) -> bool {
        self == ProposalState::Succeeded || self == ProposalState::Defeated || self
            == ProposalState::Executing || self == ProposalState::ExecutingWithErrors || self
            == ProposalState::Completed
    }

    /// The states in which attached operations may be run.
    pub open spec fn allows_execution(self) -> bool {
        self == ProposalState::Succeeded || self == ProposalState::Executing || self
            == ProposalState::ExecutingWithErrors
    }

    /// The states from which the owner may cancel.
    pub open spec fn is_cancellable(self) -> bool {
        self == ProposalState::Draft || self == ProposalState::SigningOff || self
            == ProposalState::Voting
    }

    /// The states that a proposal never leaves.
    pub open spec fn is_terminal(self) -> bool {
        self == ProposalState::Completed || self == ProposalState::Cancelled || self
            == ProposalState::Defeated
    }

    /// The steps of the lifecycle: whether a proposal in this state may be
    /// in `next` after one operation. A proposal may always stay as it is.
    ///
    /// A draft is signed off and then voted on, or voted on at once where
    /// the last co-signer signs. The vote ends in success, in defeat, or,
    /// where nothing is attached that could run, in completion. A successful
    /// proposal executes, with errors once an operation has failed, until it
    /// is completed. Until the vote ends the owner may cancel.
    pub open spec fn may_become(self, next: ProposalState) -> bool {
        self == next || match self {
            ProposalState::Draft => next == ProposalState::SigningOff || next
                == ProposalState::Voting || next == ProposalState::Cancelled,
            ProposalState::SigningOff => next == ProposalState::Voting || next
                == ProposalState::Cancelled,
            ProposalState::Voting => next == ProposalState::Succeeded || next
                == ProposalState::Defeated || next == ProposalState::Completed || next
                == ProposalState::Cancelled,
            ProposalState::Succeeded => next == ProposalState::Executing || next
                == ProposalState::ExecutingWithErrors || next == ProposalState::Completed,
            ProposalState::Executing => next == ProposalState::ExecutingWithErrors || next
                == ProposalState::Completed,
            ProposalState::ExecutingWithErrors => next == ProposalState::Completed,
            ProposalState::Completed => false,
            ProposalState::Cancelled => false,
            ProposalState::Defeated => false,
        }
    }
}

/// A proposal in a terminal state stays in it.
pub proof fn lemma_terminal_states_stay(state: ProposalState, next: ProposalState)
    requires
        state.is_terminal(),
        state.may_become(next),
    ensures
        next == state,
{
}

/// How voters may choose among the options and how many options may win.
#[derive(Clone, Copy, Debug, PartialEq, Eq, Structural)]
pub enum VoteType {
    /// One option per voter, one winner.
    SingleChoice,
    /// Any number of options per voter, one winner.
    MultiChoice,
    /// Weight spread over up to `max_voter_options` options, up to
    /// `max_winning_options` winners.
    MultiWeightedChoice { max_winning_options: u8, max_voter_options: u8 },
}

impl VoteType {
    /// How many options may win.
    pub open spec fn max_winning_options(self) -> nat {
        match self {
            VoteType::SingleChoice => 1,
            VoteType::MultiChoice => 1,
            VoteType::MultiWeightedChoice { max_winning_options, .. } => max_winning_options as nat,
        }
    }

    /// Whether a voter may give weight to `n` options at once.
    pub open spec fn allows_voter_options(self, n: nat) -> bool {
        match self {
            VoteType::SingleChoice => n <= 1,
            VoteType::MultiChoice => true,
            VoteType::MultiWeightedChoice { max_voter_options, .. } => n <= max_voter_options,
        }
    }
}

/// Outcome of the vote for one option.
#[derive(Clone, Copy, Debug, PartialEq, Eq, Structural)]
pub enum OptionVoteResult {
    /// The vote has not been finalised.
    Pending,
    /// The option won.
    Succeeded,
    /// The option lost.
    Defeated,
}

} // verus!
