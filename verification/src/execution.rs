//! The operations attached to a proposal's options, and the conditions
//! under which each of them may run.
//!
//! The operations of an option run strictly in the order of their indices;
//! the options of a proposal run independently of each other. Running an
//! operation is the caller's business: the caller asks
//! [`assert_can_execute_transaction`] whether the operation may run, runs
//! it, and has [`execute_transaction`] record how the run ended.

use vstd::prelude::*;
use crate::error::{refused_or_done, GovernanceError};
use crate::finalize::lemma_results_depend_on_tally;
use crate::proposal::{lemma_options_size_by_label, Proposal, ProposalOptionView, ProposalView};
use crate::state::{OptionVoteResult, ProposalState};

verus! {

/// What is known of the run of an attached operation.
#[derive(Clone, Copy, Debug, PartialEq, Eq, Structural)]
pub enum TransactionExecutionStatus {
    /// The operation has not run.
    Pending,
    /// The operation ran and succeeded.
    Success,
    /// The operation ran and failed.
    Error,
}

/// An operation attached to one option of a proposal.
#[derive(Clone, Copy, Debug, PartialEq, Eq)]
pub struct ProposalTransaction {
    /// Position of the option among the proposal's options.
    pub option_index: usize,
    /// Position of the operation among those of its option.
    pub instruction_index: u16,
    /// Seconds that have to pass between the decision and the run.
    pub hold_up_time: u32,
    /// When the operation ran.
    pub executed_at: Option<i64>,
    /// How the run ended.
    pub execution_status: TransactionExecutionStatus,
}

impl ProposalTransaction {
    /// The operation as it is when attached: it has not run.
    pub open spec fn attached(
        option_index: usize,
        instruction_index: u16,
        hold_up_time: u32,
    ) -> ProposalTransaction {
        ProposalTransaction {
            option_index,
            instruction_index,
            hold_up_time,
            executed_at: None,
            execution_status: TransactionExecutionStatus::Pending,
        }
    }

    /// The operation once its run at `now` has been recorded.
    pub open spec fn ran(self, now: i64, succeeded: bool) -> ProposalTransaction {
        ProposalTransaction {
            executed_at: Some(now),
            execution_status: if succeeded {
                TransactionExecutionStatus::Success
            } else {
                TransactionExecutionStatus::Error
            },
            ..self
        }
    }
}

/// No winning option among the given ones has an operation left to run.
pub open spec fn nothing_pending(options: Seq<ProposalOptionView>) -> bool {
    forall|i: int|
        0 <= i < options.len() && (#[trigger] options[i]).vote_result
            == OptionVoteResult::Succeeded ==> options[i].transactions_next_index
            == options[i].transactions_count
}

impl ProposalView {
    /// The delay of the operation has passed at `now`.
    pub open spec fn hold_up_elapsed(self, transaction: ProposalTransaction, now: int) -> bool {
        self.voting_completed_at matches Some(decided) && now >= decided
            + transaction.hold_up_time
    }

    /// The proposal with one more operation attached to the option at `option_index`.
    pub open spec fn with_transaction(self, option_index: int) -> ProposalView {
        ProposalView {
            options: self.options.update(
                option_index,
                ProposalOptionView {
                    transactions_count: self.options[option_index].transactions_count + 1,
                    ..self.options[option_index]
                },
            ),
            ..self
        }
    }

    /// The options once the given operation has run.
    pub open spec fn options_after(self, transaction: ProposalTransaction) -> Seq<
        ProposalOptionView,
    > {
        let option = self.options[transaction.option_index as int];
        self.options.update(
            transaction.option_index as int,
            ProposalOptionView {
                transactions_next_index: option.transactions_next_index + 1,
                transactions_executed_count: option.transactions_executed_count + 1,
                ..option
            },
        )
    }

    /// The proposal once the given operation has run: the operation's option
    /// has moved on by one; after a failure the proposal is executing with
    /// errors, after a first success it is executing; and it is completed as
    /// soon as no winning option has an operation left.
    pub open spec fn executed(self, transaction: ProposalTransaction, succeeded: bool) -> ProposalView {
        let options = self.options_after(transaction);
        ProposalView {
            options,
            state: if nothing_pending(options) {
                ProposalState::Completed
            } else if !succeeded {
                ProposalState::ExecutingWithErrors
            } else if self.state == ProposalState::Succeeded {
                ProposalState::Executing
            } else {
                self.state
            },
            ..self
        }
    }
}

/// Why an operation cannot be attached to the option at `option_index`;
/// `None` where it can.
pub open spec fn attachment_refusal(proposal: ProposalView, option_index: int) -> Option<
    GovernanceError,
> {
    if !proposal.state.is_editable() {
        Some(GovernanceError::InvalidStateCannotEdit)
    } else if !(0 <= option_index < proposal.options.len()) {
        Some(GovernanceError::InvalidOptionIndex)
    } else if proposal.options[option_index].transactions_count >= u16::MAX {
        Some(GovernanceError::ArithmeticOverflow)
    } else {
        None
    }
}

/// Why the operation may not run at `now`; `None` where it may.
///
/// The reasons are looked for in this order: the proposal is completed; the
/// operation's option does not exist; the option lost the vote; the
/// proposal's state does not allow operations to run, or the option has not
/// won; the operation is not the next one of its option; its delay has not
/// passed; the option has no operation left to count.
pub open spec fn execution_refusal(
    proposal: ProposalView,
    transaction: ProposalTransaction,
    now: int,
) -> Option<GovernanceError> {
    let option = proposal.options[transaction.option_index as int];
    if proposal.state == ProposalState::Completed {
        Some(GovernanceError::InvalidStateCannotExecuteTransaction)
    } else if transaction.option_index >= proposal.options.len() {
        Some(GovernanceError::InvalidOptionIndex)
    } else if option.vote_result == OptionVoteResult::Defeated {
        Some(GovernanceError::CannotExecuteDefeatedOption)
    } else if !proposal.state.allows_execution() || option.vote_result
        != OptionVoteResult::Succeeded {
        Some(GovernanceError::InvalidStateCannotExecuteTransaction)
    } else if transaction.instruction_index != option.transactions_next_index
        || option.transactions_next_index >= option.transactions_count {
        Some(GovernanceError::OutOfOrderExecution)
    } else if !proposal.hold_up_elapsed(transaction, now) {
        Some(GovernanceError::HoldUpTimeNotElapsed)
    } else if option.transactions_executed_count >= option.transactions_count {
        Some(GovernanceError::ArithmeticOverflow)
    } else {
        None
    }
}

/// An operation of an option that lost the vote never runs: it is refused
/// as belonging to a defeated option, whatever the state of the proposal,
/// unless the proposal is completed.
pub proof fn lemma_defeated_option_never_runs(
    proposal: ProposalView,
    transaction: ProposalTransaction,
    now: int,
)
    requires
        proposal.state != ProposalState::Completed,
        transaction.option_index < proposal.options.len(),
        proposal.options[transaction.option_index as int].vote_result
            == OptionVoteResult::Defeated,
    ensures
        execution_refusal(proposal, transaction, now) == Some(
            GovernanceError::CannotExecuteDefeatedOption,
        ),
{
}

/// On a completed proposal no operation runs: every one is refused for the
/// proposal's state, whichever option it belongs to.
pub proof fn lemma_completed_proposal_runs_nothing(
    proposal: ProposalView,
    transaction: ProposalTransaction,
    now: int,
)
    requires
        proposal.state == ProposalState::Completed,
    ensures
        execution_refusal(proposal, transaction, now) == Some(
            GovernanceError::InvalidStateCannotExecuteTransaction,
        ),
{
}

/// An operation runs only on a proposal whose state allows it, for an
/// option that won, as the next of that option's operations, and after its
/// delay.
pub proof fn lemma_execution_is_admitted_only_in_order(
    proposal: ProposalView,
    transaction: ProposalTransaction,
    now: int,
)
    requires
        execution_refusal(proposal, transaction, now) is None,
    ensures
        proposal.state.allows_execution(),
        transaction.option_index < proposal.options.len(),
        proposal.options[transaction.option_index as int].vote_result
            == OptionVoteResult::Succeeded,
        transaction.instruction_index
            == proposal.options[transaction.option_index as int].transactions_next_index,
        proposal.hold_up_elapsed(transaction, now),
{
}

/// Of a winning option of a proposal whose state allows operations to run,
/// every operation but the next one is refused as out of order.
pub proof fn lemma_out_of_order_is_refused(
    proposal: ProposalView,
    transaction: ProposalTransaction,
    now: int,
)
    requires
        proposal.state.allows_execution(),
        transaction.option_index < proposal.options.len(),
        proposal.options[transaction.option_index as int].vote_result
            == OptionVoteResult::Succeeded,
        transaction.instruction_index
            != proposal.options[transaction.option_index as int].transactions_next_index,
    ensures
        execution_refusal(proposal, transaction, now) == Some(
            GovernanceError::OutOfOrderExecution,
        ),
{
}

/// The run of an operation completes the proposal exactly when it leaves no
/// winning option with an operation to run.
pub proof fn lemma_completed_when_nothing_is_pending(
    proposal: ProposalView,
    transaction: ProposalTransaction,
    succeeded: bool,
)
    requires
        proposal.state.allows_execution(),
    ensures
        proposal.executed(transaction, succeeded).state == ProposalState::Completed
            <==> nothing_pending(proposal.options_after(transaction)),
{
}

/// Running an operation moves its option on by one and leaves the counters
/// of every other option alone: the index of the next operation never goes back.
pub proof fn lemma_next_index_only_increases(
    proposal: ProposalView,
    transaction: ProposalTransaction,
    succeeded: bool,
)
    requires
        transaction.option_index < proposal.options.len(),
    ensures
        proposal.executed(transaction, succeeded).options.len() == proposal.options.len(),
        forall|i: int|
            0 <= i < proposal.options.len() ==> (#[trigger] proposal.executed(
                transaction,
                succeeded,
            ).options[i]).transactions_next_index >= proposal.options[i].transactions_next_index,
{
}

/// A well-formed proposal on which an operation may run stays well formed
/// once the operation has run.
pub proof fn lemma_executed_wf(
    proposal: ProposalView,
    transaction: ProposalTransaction,
    now: int,
    succeeded: bool,
)
    requires
        proposal.wf(),
        execution_refusal(proposal, transaction, now) is None,
    ensures
        proposal.executed(transaction, succeeded).wf(),
{
    let after = proposal.executed(transaction, succeeded);
    lemma_options_size_by_label(proposal.options, after.options, proposal.options.len() as int);
    lemma_results_depend_on_tally(proposal, after);
}

/// Attaches an operation to the option at `option_index` of a proposal that
/// is being drafted or signed off, as the last of that option's operations.
pub fn insert_transaction(proposal: &mut Proposal, option_index: usize, hold_up_time: u32) -> (result:
    Result<ProposalTransaction, GovernanceError>)
    ensures
        match result {
            Ok(transaction) => {
                &&& attachment_refusal(old(proposal)@, option_index as int) is None
                &&& final(proposal)@ == old(proposal)@.with_transaction(option_index as int)
                &&& transaction == ProposalTransaction::attached(
                    option_index,
                    old(proposal).options@[option_index as int].transactions_count,
                    hold_up_time,
                )
            },
            Err(error) => {
                &&& attachment_refusal(old(proposal)@, option_index as int) == Some(error)
                &&& *final(proposal) == *old(proposal)
            },
        },
        old(proposal).wf() ==> final(proposal).wf(),
{
    let ghost before = proposal@;
    match proposal.assert_can_insert_proposal_options() {
        Ok(()) => {},
        Err(error) => {
            return Err(error);
        },
    }
    if option_index >= proposal.options.len() {
        return Err(GovernanceError::InvalidOptionIndex);
    }
    let instruction_index = proposal.options[option_index].transactions_count;
    if instruction_index == u16::MAX {
        return Err(GovernanceError::ArithmeticOverflow);
    }
    proposal.options[option_index].transactions_count = instruction_index + 1;
    proof {
        let after = before.with_transaction(option_index as int);
        assert(proposal@.options =~= after.options);
        if old(proposal).wf() {
            lemma_options_size_by_label(before.options, after.options, before.options.len() as int);
        }
    }
    Ok(
        ProposalTransaction {
            option_index,
            instruction_index,
            hold_up_time,
            executed_at: None,
            execution_status: TransactionExecutionStatus::Pending,
        },
    )
}

/// Decides whether the operation may run at `now`. Nothing is changed.
pub fn assert_can_execute_transaction(
    proposal: &Proposal,
    transaction: &ProposalTransaction,
    now: i64,
) -> (result: Result<(), GovernanceError>)
    ensures
        result == refused_or_done(execution_refusal(proposal@, *transaction, now as int)),
{
    match proposal.state {
        ProposalState::Completed => {
            return Err(GovernanceError::InvalidStateCannotExecuteTransaction);
        },
        _ => {},
    }
    if transaction.option_index >= proposal.options.len() {
        return Err(GovernanceError::InvalidOptionIndex);
    }
    let option = &proposal.options[transaction.option_index];
    match option.vote_result {
        OptionVoteResult::Defeated => {
            return Err(GovernanceError::CannotExecuteDefeatedOption);
        },
        OptionVoteResult::Pending => {
            return Err(GovernanceError::InvalidStateCannotExecuteTransaction);
        },
        OptionVoteResult::Succeeded => {},
    }
    match proposal.state {
        ProposalState::Succeeded | ProposalState::Executing | ProposalState::ExecutingWithErrors => {},
        _ => {
            return Err(GovernanceError::InvalidStateCannotExecuteTransaction);
        },
    }
    if transaction.instruction_index != option.transactions_next_index
        || option.transactions_next_index >= option.transactions_count {
        return Err(GovernanceError::OutOfOrderExecution);
    }
    let elapsed = match proposal.voting_completed_at {
        Some(decided) => now as i128 >= decided as i128 + transaction.hold_up_time as i128,
        None => false,
    };
    if !elapsed {
        return Err(GovernanceError::HoldUpTimeNotElapsed);
    }
    if option.transactions_executed_count >= option.transactions_count {
        return Err(GovernanceError::ArithmeticOverflow);
    }
    Ok(())
}

/// Tells whether no winning option has an operation left to run.
pub(crate) fn is_nothing_pending(proposal: &Proposal) -> (none: bool)
    ensures
        none == nothing_pending(proposal@.options),
{
    let mut i: usize = 0;
    while i < proposal.options.len()
        invariant
            i <= proposal.options.len(),
            proposal@.options.len() == proposal.options.len(),
            forall|k: int|
                0 <= k < i && (#[trigger] proposal@.options[k]).vote_result
                    == OptionVoteResult::Succeeded ==> proposal@.options[k].transactions_next_index
                    == proposal@.options[k].transactions_count,
        decreases proposal.options.len() - i,
    {
        let pending = match proposal.options[i].vote_result {
            OptionVoteResult::Succeeded => proposal.options[i].transactions_next_index
                != proposal.options[i].transactions_count,
            _ => false,
        };
        if pending {
            assert(proposal@.options[i as int].vote_result == OptionVoteResult::Succeeded);
            return false;
        }
        i += 1;
    }
    true
}

/// Records the run of an operation at `now`, where the operation may run
/// at `now`; else the request is refused as [`assert_can_execute_transaction`]
/// refuses it.
///
/// `succeeded` tells how the run ended. The operation's option moves on to
/// its next operation and counts one more run; the operation keeps the time
/// and the outcome of its run. A failure leaves the proposal executing with
/// errors, a first success executing; once no winning option has an
/// operation left, the proposal is completed. A refused request changes
/// nothing.
pub fn execute_transaction(
    proposal: &mut Proposal,
    transaction: &mut ProposalTransaction,
    now: i64,
    succeeded: bool,
) -> (result: Result<(), GovernanceError>)
    ensures
        result == refused_or_done(
            execution_refusal(old(proposal)@, *old(transaction), now as int),
        ),
        match result {
            Ok(()) => {
                &&& final(proposal)@ == old(proposal)@.executed(*old(transaction), succeeded)
                &&& *final(transaction) == old(transaction).ran(now, succeeded)
            },
            Err(_) => *final(proposal) == *old(proposal) && *final(transaction) == *old(
                transaction,
            ),
        },
        old(proposal)@.state.may_become(final(proposal)@.state),
        old(proposal).wf() ==> final(proposal).wf(),
{
    let ghost before = proposal@;
    match assert_can_execute_transaction(proposal, transaction, now) {
        Ok(()) => {},
        Err(error) => {
            return Err(error);
        },
    }
    let index = transaction.option_index;
    let next_index = proposal.options[index].transactions_next_index;
    let executed_count = proposal.options[index].transactions_executed_count;
    proposal.options[index].transactions_next_index = next_index + 1;
    proposal.options[index].transactions_executed_count = executed_count + 1;
    assert(proposal@.options =~= before.options_after(*old(transaction)));
    let completed = is_nothing_pending(proposal);
    proposal.state = if completed {
        ProposalState::Completed
    } else if !succeeded {
        ProposalState::ExecutingWithErrors
    } else {
        match proposal.state {
            ProposalState::Succeeded => ProposalState::Executing,
            state => state,
        }
    };
    transaction.executed_at = Some(now);
    transaction.execution_status = if succeeded {
        TransactionExecutionStatus::Success
    } else {
        TransactionExecutionStatus::Error
    };
    proof {
        if old(proposal).wf() {
            lemma_executed_wf(before, *old(transaction), now as int, succeeded);
        }
    }
    Ok(())
}

} // verus!
