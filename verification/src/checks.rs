//! Checks, at run time, of what holds of every proposal and every ledger
//! that the operations of this crate have produced. They are for records
//! that come from elsewhere.

use vstd::prelude::*;
use crate::execution::is_nothing_pending;
use crate::finalize::option_results;
use crate::proposal::Proposal;
use crate::state::{OptionVoteResult, ProposalState};
use crate::tally::{
    approved_weight, ledger_tally, lemma_live_weight_monotonic, live_deny_weight,
    live_option_weight,
};
use crate::vote::{one_live_vote_each, Vote, VoteLedger};
use crate::voting::{add_choices, ledger_matches, validate_vote, vote_refusal};

verus! {

/// Tells whether no option has run more operations than it has moved past,
/// nor moved past more than are attached.
fn has_ordered_counters(proposal: &Proposal) -> (ordered: bool)
    ensures
        ordered == (forall|i: int|
            0 <= i < proposal@.options.len() ==> (#[trigger] proposal@.options[i]).counters_ordered()),
{
    let mut i: usize = 0;
    while i < proposal.options.len()
        invariant
            i <= proposal.options.len(),
            proposal@.options.len() == proposal.options.len(),
            forall|k: int| 0 <= k < i ==> (#[trigger] proposal@.options[k]).counters_ordered(),
        decreases proposal.options.len() - i,
    {
        let option = &proposal.options[i];
        if option.transactions_executed_count > option.transactions_next_index
            || option.transactions_next_index > option.transactions_count {
            assert(!proposal@.options[i as int].counters_ordered());
            return false;
        }
        i += 1;
    }
    true
}

/// Tells whether no approving and no denying weight has been counted.
fn is_nothing_counted(proposal: &Proposal) -> (nothing: bool)
    ensures
        nothing == proposal@.nothing_counted(),
{
    match proposal.deny_vote_weight {
        Some(weight) => {
            if weight != 0 {
                return false;
            }
        },
        None => {},
    }
    let mut i: usize = 0;
    while i < proposal.options.len()
        invariant
            i <= proposal.options.len(),
            proposal@.options.len() == proposal.options.len(),
            forall|k: int| 0 <= k < i ==> (#[trigger] proposal@.options[k]).vote_weight == 0,
        decreases proposal.options.len() - i,
    {
        if proposal.options[i].vote_weight != 0 {
            assert(proposal@.options[i as int].vote_weight != 0);
            return false;
        }
        i += 1;
    }
    true
}

/// Tells whether no option has a result, and no attached operation has been attempted.
fn is_nothing_decided(proposal: &Proposal) -> (nothing: bool)
    ensures
        nothing == proposal@.nothing_decided(),
{
    let mut i: usize = 0;
    while i < proposal.options.len()
        invariant
            i <= proposal.options.len(),
            proposal@.options.len() == proposal.options.len(),
            forall|k: int|
                0 <= k < i ==> {
                    &&& (#[trigger] proposal@.options[k]).vote_result == OptionVoteResult::Pending
                    &&& proposal@.options[k].transactions_next_index == 0
                    &&& proposal@.options[k].transactions_executed_count == 0
                },
        decreases proposal.options.len() - i,
    {
        let option = &proposal.options[i];
        let untouched = match option.vote_result {
            OptionVoteResult::Pending => option.transactions_next_index == 0
                && option.transactions_executed_count == 0,
            _ => false,
        };
        if !untouched {
            assert(proposal@.options[i as int].vote_result != OptionVoteResult::Pending
                || proposal@.options[i as int].transactions_next_index != 0
                || proposal@.options[i as int].transactions_executed_count != 0);
            return false;
        }
        i += 1;
    }
    true
}

/// Tells whether every option has the result that the tally calls for.
fn has_results_of_tally(proposal: &Proposal) -> (follows: bool)
    ensures
        follows == proposal@.results_follow_tally(),
{
    let results = option_results(proposal);
    let mut i: usize = 0;
    while i < proposal.options.len()
        invariant
            i <= proposal.options.len(),
            proposal@.options.len() == proposal.options.len(),
            results@.len() == proposal.options.len(),
            forall|k: int| 0 <= k < results@.len() ==> results@[k] == proposal@.result_of(k),
            forall|k: int|
                0 <= k < i ==> (#[trigger] proposal@.options[k]).vote_result == proposal@.result_of(
                    k,
                ),
        decreases proposal.options.len() - i,
    {
        if proposal.options[i].vote_result != results[i] {
            return false;
        }
        i += 1;
    }
    true
}

/// Tells whether every option has lost.
fn is_everything_defeated(proposal: &Proposal) -> (all: bool)
    ensures
        all == proposal@.everything_defeated(),
{
    let mut i: usize = 0;
    while i < proposal.options.len()
        invariant
            i <= proposal.options.len(),
            proposal@.options.len() == proposal.options.len(),
            forall|k: int|
                0 <= k < i ==> (#[trigger] proposal@.options[k]).vote_result
                    == OptionVoteResult::Defeated,
        decreases proposal.options.len() - i,
    {
        if proposal.options[i].vote_result != OptionVoteResult::Defeated {
            assert(proposal@.options[i as int].vote_result != OptionVoteResult::Defeated);
            return false;
        }
        i += 1;
    }
    true
}

impl Proposal {
    /// Tells whether the proposal is one that the operations of this crate
    /// could have produced.
    pub fn is_well_formed(&self) -> (holds: bool)
        ensures
            holds == self.wf(),
    {
        let fits = match self.get_max_size() {
            Some(size) => size <= self.account_size,
            None => false,
        };
        if !fits || !has_ordered_counters(self) {
            return false;
        }
        match self.state {
            ProposalState::Draft | ProposalState::SigningOff => is_nothing_counted(self)
                && is_nothing_decided(self),
            ProposalState::Voting => is_nothing_decided(self) && self.voting_at.is_some()
                && self.max_vote_weight.is_some(),
            ProposalState::Cancelled => is_nothing_decided(self),
            ProposalState::Succeeded => has_results_of_tally(self)
                && self.voting_completed_at.is_some() && self.max_vote_weight.is_some(),
            ProposalState::Defeated => has_results_of_tally(self)
                && self.voting_completed_at.is_some() && self.max_vote_weight.is_some()
                && is_everything_defeated(self),
            ProposalState::Completed => has_results_of_tally(self)
                && self.voting_completed_at.is_some() && self.max_vote_weight.is_some()
                && is_nothing_pending(self),
            ProposalState::Executing | ProposalState::ExecutingWithErrors => has_results_of_tally(
                self,
            ) && self.voting_completed_at.is_some() && self.max_vote_weight.is_some()
                && !is_nothing_pending(self),
        }
    }
}

impl VoteLedger {
    /// Tells whether no voter has two live votes in the ledger.
    pub fn is_well_formed(&self) -> (holds: bool)
        ensures
            holds == self.wf(),
    {
        let count = self.entries.len();
        let mut j: usize = 0;
        while j < count
            invariant
                j <= count,
                count == self.entries.len(),
                self@.len() == count,
                forall|a: int, b: int|
                    0 <= a < b < j && !(#[trigger] self@[a]).is_relinquished && !(
                    #[trigger] self@[b]).is_relinquished ==> self@[a].voter != self@[b].voter,
            decreases count - j,
        {
            if !self.entries[j].is_relinquished {
                let mut i: usize = 0;
                while i < j
                    invariant
                        i <= j < count,
                        count == self.entries.len(),
                        self@.len() == count,
                        !self@[j as int].is_relinquished,
                        forall|a: int|
                            0 <= a < i && !(#[trigger] self@[a]).is_relinquished ==> self@[a].voter
                                != self@[j as int].voter,
                    decreases j - i,
                {
                    if !self.entries[i].is_relinquished && self.entries[i].voter.same_as(
                        &self.entries[j].voter,
                    ) {
                        assert(!one_live_vote_each(self@)) by {
                            assert(!self@[i as int].is_relinquished && !self@[j as int].is_relinquished
                                && self@[i as int].voter == self@[j as int].voter);
                        }
                        return false;
                    }
                    i += 1;
                }
            }
            j += 1;
        }
        true
    }
}

/// Tells whether the proposal accepts every vote of the ledger.
fn holds_accepted_votes(ledger: &VoteLedger, proposal: &Proposal) -> (accepted: bool)
    ensures
        accepted == (forall|i: int|
            0 <= i < ledger@.len() ==> vote_refusal(proposal@, (#[trigger] ledger@[i]).vote)
                is None),
{
    let mut i: usize = 0;
    while i < ledger.entries.len()
        invariant
            i <= ledger.entries.len(),
            ledger@.len() == ledger.entries.len(),
            forall|k: int|
                0 <= k < i ==> vote_refusal(proposal@, (#[trigger] ledger@[k]).vote) is None,
        decreases ledger.entries.len() - i,
    {
        if validate_vote(proposal, &ledger.entries[i].vote).is_err() {
            assert(vote_refusal(proposal@, ledger@[i as int].vote) is Some);
            return false;
        }
        i += 1;
    }
    true
}

/// Tells whether the tally of the proposal is the sum of the ledger's live
/// votes, all of which name options of the proposal.
fn has_tally_of(ledger: &VoteLedger, proposal: &Proposal) -> (same: bool)
    requires
        forall|i: int|
            0 <= i < ledger@.len() ==> vote_refusal(proposal@, (#[trigger] ledger@[i]).vote)
                is None,
    ensures
        same == (proposal@.tally() == ledger_tally(
            ledger@,
            proposal@.options.len(),
            proposal@.deny_vote_weight is Some,
        )),
{
    let ghost entries = ledger@;
    let ghost counted = ledger_tally(
        entries,
        proposal@.options.len(),
        proposal@.deny_vote_weight is Some,
    );
    let options = proposal.options.len();
    let mut weights: Vec<u64> = Vec::new();
    let mut i: usize = 0;
    while i < options
        invariant
            i <= options,
            weights@.len() == i,
            forall|k: int| 0 <= k < i ==> weights@[k] == 0,
        decreases options - i,
    {
        weights.push(0);
        i += 1;
    }
    let mut denied: u64 = 0;
    let mut k: usize = 0;
    while k < ledger.entries.len()
        invariant
            k <= ledger.entries.len(),
            entries == ledger@,
            entries.len() == ledger.entries.len(),
            options == proposal.options.len(),
            options == proposal@.options.len(),
            weights@.len() == options,
            counted == ledger_tally(
                entries,
                proposal@.options.len(),
                proposal@.deny_vote_weight is Some,
            ),
            forall|i: int|
                0 <= i < entries.len() ==> vote_refusal(proposal@, (#[trigger] entries[i]).vote)
                    is None,
            forall|i: int|
                0 <= i < options ==> (#[trigger] weights@[i]) == live_option_weight(
                    entries,
                    k as int,
                    i,
                ),
            denied == live_deny_weight(entries, k as int),
        decreases ledger.entries.len() - k,
    {
        let entry = &ledger.entries[k];
        assert(entry@ == entries[k as int]);
        if !entry.is_relinquished {
            match &entry.vote {
                Vote::Approve(choices) => {
                    let ghost before = weights@;
                    if !add_choices(&mut weights, entry.voter_weight, choices) {
                        proof {
                            let i = choose|i: int|
                                0 <= i < before.len() && (#[trigger] before[i])
                                    + approved_weight(
                                    entry.voter_weight as nat,
                                    choices@,
                                    choices@.len() as int,
                                    i,
                                ) > u64::MAX;
                            lemma_live_weight_monotonic(entries, k + 1, entries.len() as int, i);
                            assert(counted.option_weights[i] > u64::MAX);
                        }
                        return false;
                    }
                },
                Vote::Deny => {
                    match denied.checked_add(entry.voter_weight) {
                        Some(sum) => {
                            denied = sum;
                        },
                        None => {
                            proof {
                                lemma_live_weight_monotonic(
                                    entries,
                                    k + 1,
                                    entries.len() as int,
                                    0,
                                );
                            }
                            return false;
                        },
                    }
                },
            }
        }
        k += 1;
    }
    match proposal.deny_vote_weight {
        Some(weight) => {
            if weight != denied {
                return false;
            }
        },
        None => {},
    }
    let mut i: usize = 0;
    while i < options
        invariant
            i <= options,
            options == proposal.options.len(),
            options == proposal@.options.len(),
            weights@.len() == options,
            entries == ledger@,
            counted == ledger_tally(
                entries,
                proposal@.options.len(),
                proposal@.deny_vote_weight is Some,
            ),
            forall|j: int|
                0 <= j < options ==> (#[trigger] weights@[j]) == live_option_weight(
                    entries,
                    entries.len() as int,
                    j,
                ),
            forall|j: int| 0 <= j < i ==> weights@[j] == (#[trigger] proposal@.options[j]).vote_weight,
        decreases options - i,
    {
        if weights[i] != proposal.options[i].vote_weight {
            assert(counted.option_weights[i as int] != proposal@.tally().option_weights[i as int]);
            return false;
        }
        i += 1;
    }
    assert(proposal@.tally() =~= counted);
    true
}

impl VoteLedger {
    /// Tells whether the ledger is that of the proposal: empty until voting
    /// starts, holding only votes that the proposal accepts, and amounting
    /// to the proposal's tally while the proposal is voted on.
    pub fn belongs_to(&self, proposal: &Proposal) -> (belongs: bool)
        ensures
            belongs == ledger_matches(proposal@, self@),
    {
        match proposal.state {
            ProposalState::Draft | ProposalState::SigningOff => {
                if self.entries.len() != 0 {
                    return false;
                }
            },
            _ => {},
        }
        if !holds_accepted_votes(self, proposal) {
            return false;
        }
        match proposal.state {
            ProposalState::Voting => has_tally_of(self, proposal),
            _ => true,
        }
    }
}

} // verus!
