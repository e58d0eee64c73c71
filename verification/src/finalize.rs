//! Finalisation of a vote: which options win, and where the proposal goes from there.
//!
//! An option is a candidate if its weight reaches the required share of all
//! the weight that may vote and, where the proposal has a denying pool, is
//! greater than the weight of that pool. Candidates are ranked by weight, the
//! heavier first, and among equals the one inserted earlier first. As many
//! candidates win as the vote type allows, from the top of the ranking; every
//! other option loses.

use vstd::prelude::*;
use crate::error::GovernanceError;
use crate::proposal::{lemma_options_size_by_label, Proposal, ProposalOptionView, ProposalView};
use crate::state::{OptionVoteResult, ProposalState, VoteType};
use crate::tally::{percentage_of, weight_share};

verus! {

impl ProposalView {
    /// The weight that an option must reach to win; `None` before voting has
    /// started, when the weight that may vote is not known.
    pub open spec fn required_yes_weight(self) -> Option<nat> {
        match self.max_vote_weight {
            Some(max_vote_weight) => Some(
                percentage_of(max_vote_weight, self.vote_threshold_percentage),
            ),
            None => None,
        }
    }

    /// The option at `i` has the weight to win.
    pub open spec fn is_candidate(self, i: int) -> bool {
        &&& 0 <= i < self.options.len()
        &&& self.required_yes_weight() matches Some(required) && self.options[i].vote_weight
            >= required
        &&& self.deny_vote_weight matches Some(denied) ==> self.options[i].vote_weight > denied
    }

    /// The option at `j` is a candidate that is ranked before the option at `i`.
    pub open spec fn outranks(self, j: int, i: int) -> bool {
        &&& self.is_candidate(j)
        &&& 0 <= i < self.options.len()
        &&& self.options[j].vote_weight > self.options[i].vote_weight || (
        self.options[j].vote_weight == self.options[i].vote_weight && j < i)
    }

    /// Number of candidates among the first `n` options that are ranked
    /// before the option at `i`.
    pub open spec fn candidates_ahead(self, i: int, n: int) -> nat
        decreases n,
    {
        if n <= 0 {
            0
        } else {
            self.candidates_ahead(i, n - 1) + if self.outranks(n - 1, i) {
                1nat
            } else {
                0nat
            }
        }
    }

    /// The option at `i` wins: it is a candidate, and fewer candidates are
    /// ranked before it than options may win.
    pub open spec fn wins(self, i: int) -> bool {
        &&& self.is_candidate(i)
        &&& self.candidates_ahead(i, self.options.len() as int)
            < self.vote_type.max_winning_options()
    }

    /// The result that finalisation gives to the option at `i`.
    pub open spec fn result_of(self, i: int) -> OptionVoteResult {
        if self.wins(i) {
            OptionVoteResult::Succeeded
        } else {
            OptionVoteResult::Defeated
        }
    }

    /// The results that the options have, in order.
    pub open spec fn results(self) -> Seq<OptionVoteResult> {
        Seq::new(self.options.len(), |i: int| self.options[i].vote_result)
    }

    /// Some option wins.
    pub open spec fn has_winner(self) -> bool {
        exists|i: int| 0 <= i < self.options.len() && self.wins(i)
    }

    /// Some operation is attached to some option.
    pub open spec fn has_transactions(self) -> bool {
        exists|i: int|
            0 <= i < self.options.len() && (#[trigger] self.options[i]).transactions_count > 0
    }

    /// The voting period is over at `now`.
    pub open spec fn voting_ended(self, now: int) -> bool {
        self.voting_at matches Some(start) && now >= start + self.max_voting_time
    }

    /// The state that finalisation leads to: `Completed` where nothing is
    /// attached that could be run, whatever the options' results; else
    /// `Succeeded` where an option wins, and `Defeated` where none does.
    pub open spec fn decided_state(self) -> ProposalState {
        if !self.has_transactions() {
            ProposalState::Completed
        } else if self.has_winner() {
            ProposalState::Succeeded
        } else {
            ProposalState::Defeated
        }
    }

    /// The proposal as finalisation at `now` leaves it.
    pub open spec fn finalized(self, now: int) -> ProposalView {
        ProposalView {
            state: self.decided_state(),
            options: Seq::new(
                self.options.len(),
                |i: int| ProposalOptionView { vote_result: self.result_of(i), ..self.options[i] },
            ),
            voting_completed_at: Some(now),
            ..self
        }
    }
}

/// Why the vote cannot be finalised at `now`; `None` where it can, and where
/// it has been finalised already.
pub open spec fn finalize_refusal(proposal: ProposalView, now: int, early_exit: bool) -> Option<
    GovernanceError,
> {
    if proposal.state.is_finalized() {
        None
    } else if proposal.state != ProposalState::Voting {
        Some(GovernanceError::InvalidStateCannotFinalize)
    } else if !early_exit && !proposal.voting_ended(now) {
        Some(GovernanceError::VotingStillInProgress)
    } else {
        None
    }
}

/// A proposal to which nothing is attached goes from `Voting` straight to
/// `Completed`, whatever the results of its options.
pub proof fn lemma_non_executable_completes(proposal: ProposalView, now: int)
    requires
        !proposal.has_transactions(),
    ensures
        proposal.finalized(now).state == ProposalState::Completed,
{
}

/// The two proposals have the same options with the same weights, and agree
/// in everything else that the results depend on.
pub open spec fn same_tally(first: ProposalView, second: ProposalView) -> bool {
    &&& first.options.len() == second.options.len()
    &&& forall|i: int|
        0 <= i < first.options.len() ==> (#[trigger] first.options[i]).vote_weight
            == second.options[i].vote_weight
    &&& first.deny_vote_weight == second.deny_vote_weight
    &&& first.max_vote_weight == second.max_vote_weight
    &&& first.vote_threshold_percentage == second.vote_threshold_percentage
    &&& first.vote_type == second.vote_type
}

/// The ranking of the options depends on the tally alone.
pub proof fn lemma_ranking_depends_on_tally(
    first: ProposalView,
    second: ProposalView,
    i: int,
    n: int,
)
    requires
        same_tally(first, second),
        n <= first.options.len(),
    ensures
        first.is_candidate(i) == second.is_candidate(i),
        first.candidates_ahead(i, n) == second.candidates_ahead(i, n),
    decreases n,
{
    if n > 0 {
        lemma_ranking_depends_on_tally(first, second, i, n - 1);
    }
}

/// The results of the options depend on the tally alone: once the weights
/// are frozen, so are the results.
pub proof fn lemma_results_depend_on_tally(first: ProposalView, second: ProposalView)
    requires
        same_tally(first, second),
    ensures
        forall|i: int| first.result_of(i) == second.result_of(i),
        first.has_winner() == second.has_winner(),
{
    assert forall|i: int| first.result_of(i) == second.result_of(i) by {
        lemma_ranking_depends_on_tally(first, second, i, first.options.len() as int);
    }
    assert forall|i: int| first.wins(i) == second.wins(i) by {
        assert(first.result_of(i) == second.result_of(i));
    }
}

/// Finalising a well-formed proposal that is voted on leaves it well formed.
pub proof fn lemma_finalized_wf(proposal: ProposalView, now: int)
    requires
        proposal.wf(),
        proposal.state == ProposalState::Voting,
    ensures
        proposal.finalized(now).wf(),
{
    let decided = proposal.finalized(now);
    lemma_options_size_by_label(proposal.options, decided.options, proposal.options.len() as int);
    lemma_results_depend_on_tally(proposal, decided);
}

/// Tells whether the option at `i` has the weight to win.
fn is_candidate_at(proposal: &Proposal, i: usize, required: Option<u128>) -> (candidate: bool)
    requires
        i < proposal.options.len(),
        match required {
            Some(weight) => proposal@.required_yes_weight() == Some(weight as nat),
            None => proposal@.required_yes_weight() is None,
        },
    ensures
        candidate == proposal@.is_candidate(i as int),
{
    let weight = proposal.options[i].vote_weight;
    let reached = match required {
        Some(required) => weight as u128 >= required,
        None => false,
    };
    let undenied = match proposal.deny_vote_weight {
        Some(denied) => weight > denied,
        None => true,
    };
    reached && undenied
}

/// Computes the result of every option, in order.
pub(crate) fn option_results(proposal: &Proposal) -> (results: Vec<OptionVoteResult>)
    ensures
        results@.len() == proposal@.options.len(),
        forall|i: int| 0 <= i < results@.len() ==> results@[i] == proposal@.result_of(i),
{
    let required: Option<u128> = match proposal.max_vote_weight {
        Some(max_vote_weight) => Some(
            weight_share(max_vote_weight, proposal.vote_threshold_percentage),
        ),
        None => None,
    };
    let max_winning: usize = match proposal.vote_type {
        VoteType::SingleChoice => 1,
        VoteType::MultiChoice => 1,
        VoteType::MultiWeightedChoice { max_winning_options, .. } => max_winning_options as usize,
    };
    let count = proposal.options.len();
    let mut results: Vec<OptionVoteResult> = Vec::new();
    let mut i: usize = 0;
    while i < count
        invariant
            i <= count,
            count == proposal.options.len(),
            count == proposal@.options.len(),
            max_winning == proposal@.vote_type.max_winning_options(),
            match required {
                Some(weight) => proposal@.required_yes_weight() == Some(weight as nat),
                None => proposal@.required_yes_weight() is None,
            },
            results@.len() == i,
            forall|k: int| 0 <= k < i ==> results@[k] == proposal@.result_of(k),
        decreases count - i,
    {
        let mut ahead: usize = 0;
        let mut j: usize = 0;
        while j < count
            invariant
                j <= count,
                i < count,
                count == proposal.options.len(),
                count == proposal@.options.len(),
                match required {
                    Some(weight) => proposal@.required_yes_weight() == Some(weight as nat),
                    None => proposal@.required_yes_weight() is None,
                },
                ahead == proposal@.candidates_ahead(i as int, j as int),
                ahead <= j,
            decreases count - j,
        {
            let heavier = proposal.options[j].vote_weight > proposal.options[i].vote_weight || (
            proposal.options[j].vote_weight == proposal.options[i].vote_weight && j < i);
            if heavier && is_candidate_at(proposal, j, required) {
                ahead = ahead + 1;
            }
            j += 1;
        }
        let wins = is_candidate_at(proposal, i, required) && ahead < max_winning;
        results.push(
            if wins {
                OptionVoteResult::Succeeded
            } else {
                OptionVoteResult::Defeated
            },
        );
        i += 1;
    }
    results
}

/// Tells whether any operation is attached to any option.
fn has_any_transaction(proposal: &Proposal) -> (any: bool)
    ensures
        any == proposal@.has_transactions(),
{
    let mut i: usize = 0;
    while i < proposal.options.len()
        invariant
            i <= proposal.options.len(),
            proposal@.options.len() == proposal.options.len(),
            forall|k: int| 0 <= k < i ==> (#[trigger] proposal@.options[k]).transactions_count == 0,
        decreases proposal.options.len() - i,
    {
        if proposal.options[i].transactions_count > 0 {
            assert(proposal@.options[i as int].transactions_count > 0);
            return true;
        }
        i += 1;
    }
    false
}

/// Copies the results that the options have, in order.
fn recorded_results(proposal: &Proposal) -> (results: Vec<OptionVoteResult>)
    ensures
        results@ == proposal@.results(),
{
    let mut results: Vec<OptionVoteResult> = Vec::new();
    let mut i: usize = 0;
    while i < proposal.options.len()
        invariant
            i <= proposal.options.len(),
            results@.len() == i,
            forall|k: int| 0 <= k < i ==> results@[k] == proposal.options@[k].vote_result,
        decreases proposal.options.len() - i,
    {
        results.push(proposal.options[i].vote_result);
        i += 1;
    }
    assert(results@ =~= proposal@.results());
    results
}

/// Finalises the vote on a proposal and returns the results of its options,
/// in order.
///
/// A proposal that is voted on is finalised once its voting period is over
/// at `now`, or earlier where `early_exit` says that the vote may end
/// before its time. Every option gets its result, `now` is recorded as the
/// time of the decision, and the proposal moves to the state that the
/// results call for. A proposal that was finalised before is left as it
/// is, and the results that it has are returned. A refused request changes
/// nothing.
pub fn finalize_vote(proposal: &mut Proposal, now: i64, early_exit: bool) -> (result: Result<
    Vec<OptionVoteResult>,
    GovernanceError,
>)
    ensures
        match finalize_refusal(old(proposal)@, now as int, early_exit) {
            Some(error) => result == Err::<Vec<OptionVoteResult>, GovernanceError>(error),
            None => result is Ok,
        },
        match result {
            Ok(results) => {
                &&& if old(proposal)@.state.is_finalized() {
                    *final(proposal) == *old(proposal)
                } else {
                    final(proposal)@ == old(proposal)@.finalized(now as int)
                }
                &&& results@ == final(proposal)@.results()
            },
            Err(_) => *final(proposal) == *old(proposal),
        },
        result is Ok && old(proposal)@.state == ProposalState::Voting && !old(
            proposal,
        )@.has_transactions() ==> final(proposal)@.state == ProposalState::Completed,
        old(proposal)@.state.may_become(final(proposal)@.state),
        old(proposal).wf() ==> final(proposal).wf(),
{
    let ghost before = proposal@;
    match proposal.state {
        ProposalState::Succeeded
        | ProposalState::Defeated
        | ProposalState::Executing
        | ProposalState::ExecutingWithErrors
        | ProposalState::Completed => {
            return Ok(recorded_results(proposal));
        },
        ProposalState::Voting => {},
        _ => {
            return Err(GovernanceError::InvalidStateCannotFinalize);
        },
    }
    let ended = match proposal.voting_at {
        Some(start) => now as i128 >= start as i128 + proposal.max_voting_time as i128,
        None => false,
    };
    if !early_exit && !ended {
        return Err(GovernanceError::VotingStillInProgress);
    }
    let results = option_results(proposal);
    let executable = has_any_transaction(proposal);
    let mut any_winner = false;
    let mut i: usize = 0;
    while i < results.len()
        invariant
            i <= results.len(),
            results@.len() == old(proposal).options@.len(),
            before == old(proposal)@,
            forall|k: int| 0 <= k < results@.len() ==> results@[k] == before.result_of(k),
            any_winner == (exists|k: int| 0 <= k < i && before.wins(k)),
            *proposal == (Proposal { options: proposal.options, ..*old(proposal) }),
            proposal.options@.len() == old(proposal).options@.len(),
            forall|k: int|
                0 <= k < i ==> (#[trigger] proposal.options@[k])@ == (ProposalOptionView {
                    vote_result: before.result_of(k),
                    ..old(proposal).options@[k]@
                }),
            forall|k: int|
                i <= k < results@.len() ==> (#[trigger] proposal.options@[k]) == old(
                    proposal,
                ).options@[k],
        decreases results.len() - i,
    {
        let decided = results[i];
        match decided {
            OptionVoteResult::Succeeded => {
                any_winner = true;
            },
            _ => {},
        }
        proposal.options[i].vote_result = decided;
        i += 1;
    }
    proposal.voting_completed_at = Some(now);
    proposal.state = if !executable {
        ProposalState::Completed
    } else if any_winner {
        ProposalState::Succeeded
    } else {
        ProposalState::Defeated
    };
    proof {
        assert(proposal@.options =~= before.finalized(now as int).options);
        assert(results@ =~= proposal@.results());
        if old(proposal).wf() {
            lemma_finalized_wf(before, now as int);
        }
    }
    Ok(results)
}

} // verus!
