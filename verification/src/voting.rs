//! Casting and relinquishing votes: which requests are refused, and what the
//! granted ones do to the proposal and to its ledger.

use vstd::prelude::*;
use crate::error::{refused_or_done, GovernanceError};
use crate::proposal::{
    lemma_options_size_by_label, weight_view, Proposal, ProposalOptionView, ProposalView,
};
use crate::state::{ProposalState, VoteType};
use crate::tally::{
    approved_weight, ledger_tally, lemma_approved_weight_monotonic, lemma_live_weight_prefix,
    lemma_live_weight_without, live_option_weight, tally_add, tally_exceeds_u64, tally_lacks,
    tally_sub, weight_share, Tally,
};
use crate::vote::{
    choices_nonzero, choices_total, first_live_vote, has_live_vote, is_live_vote_of,
    lemma_choices_total_monotonic, one_live_vote_each, Vote, VoteChoice, VoteLedger,
    VoteLedgerEntry, VoteLedgerEntryView, VoteView, VoterId,
};

verus! {

/// Why the vote cannot be cast on the proposal, whoever casts it; `None`
/// where it can.
pub open spec fn vote_refusal(proposal: ProposalView, vote: VoteView) -> Option<GovernanceError> {
    match vote {
        VoteView::Deny => if proposal.deny_vote_weight is None {
            Some(GovernanceError::DenyVoteIsNotAllowed)
        } else {
            None
        },
        VoteView::Approve(_) => if !vote.names_options(proposal.options.len()) {
            Some(GovernanceError::InvalidOptionIndex)
        } else if !vote.weights_valid(proposal.vote_type) {
            Some(GovernanceError::InvalidVoteWeights)
        } else {
            None
        },
    }
}

/// The ledger is that of the proposal: it is empty until voting starts, it
/// holds only votes that the proposal accepts, and while the proposal is
/// voted on its tally is the sum of the ledger's live votes.
pub open spec fn ledger_matches(proposal: ProposalView, entries: Seq<VoteLedgerEntryView>) -> bool {
    &&& proposal.state.is_editable() ==> entries.len() == 0
    &&& forall|i: int|
        0 <= i < entries.len() ==> vote_refusal(proposal, (#[trigger] entries[i]).vote) is None
    &&& proposal.state == ProposalState::Voting ==> proposal.tally() == ledger_tally(
        entries,
        proposal.options.len(),
        proposal.deny_vote_weight is Some,
    )
}

/// Why the vote of `voter` cannot be cast; `None` where it can.
///
/// The reasons are looked for in this order: the proposal is not being
/// voted on; the voter has a live vote already; the vote does not suit the
/// proposal; a weight of the tally would no longer fit a `u64`.
pub open spec fn cast_refusal(
    proposal: ProposalView,
    entries: Seq<VoteLedgerEntryView>,
    voter: Seq<u8>,
    weight: nat,
    vote: VoteView,
) -> Option<GovernanceError> {
    if proposal.state != ProposalState::Voting {
        Some(GovernanceError::InvalidStateCannotVote)
    } else if has_live_vote(entries, voter) {
        Some(GovernanceError::DuplicateVote)
    } else if vote_refusal(proposal, vote) is Some {
        vote_refusal(proposal, vote)
    } else if tally_exceeds_u64(tally_add(proposal.tally(), weight, vote)) {
        Some(GovernanceError::ArithmeticOverflow)
    } else {
        None
    }
}

/// Why the vote of the given entry cannot be withdrawn from the proposal;
/// `None` where it can.
///
/// Only while the proposal is voted on does a withdrawal touch the tally,
/// and only then can it be refused: where the vote names an option that
/// does not exist, or the tally holds less than the vote once gave.
pub open spec fn relinquish_refusal(proposal: ProposalView, entry: VoteLedgerEntryView) -> Option<
    GovernanceError,
> {
    if proposal.state != ProposalState::Voting {
        None
    } else if !entry.vote.names_options(proposal.options.len()) {
        Some(GovernanceError::InvalidOptionIndex)
    } else if tally_lacks(proposal.tally(), entry.voter_weight, entry.vote) {
        Some(GovernanceError::ArithmeticOverflow)
    } else {
        None
    }
}

/// Why the live vote of `voter` cannot be withdrawn; `None` where it can.
///
/// The voter needs a live vote in the ledger; the first one is the vote
/// that is withdrawn.
pub open spec fn withdrawal_refusal(
    proposal: ProposalView,
    entries: Seq<VoteLedgerEntryView>,
    voter: Seq<u8>,
) -> Option<GovernanceError> {
    match first_live_vote(entries, voter, 0) {
        Some(k) => relinquish_refusal(proposal, entries[k]),
        None => Some(GovernanceError::VoteNotFound),
    }
}

/// The proposal once the vote of the given entry has been withdrawn: while
/// it is voted on, its tally without the vote; in any other state, unchanged.
pub open spec fn without_vote(proposal: ProposalView, entry: VoteLedgerEntryView) -> ProposalView {
    if proposal.state == ProposalState::Voting {
        proposal.with_tally(tally_sub(proposal.tally(), entry.voter_weight, entry.vote))
    } else {
        proposal
    }
}

/// A proposal that is voted on stays well formed whatever weights are counted for it.
pub proof fn lemma_with_tally_wf(proposal: ProposalView, tally: Tally)
    requires
        proposal.wf(),
        proposal.state == ProposalState::Voting,
    ensures
        proposal.with_tally(tally).wf(),
{
    let counted = proposal.with_tally(tally);
    lemma_options_size_by_label(proposal.options, counted.options, proposal.options.len() as int);
}

/// A ledger that matches its proposal still does once a vote has been cast.
pub proof fn lemma_cast_keeps_ledger(
    proposal: ProposalView,
    entries: Seq<VoteLedgerEntryView>,
    voter: Seq<u8>,
    weight: nat,
    vote: VoteView,
)
    requires
        cast_refusal(proposal, entries, voter, weight, vote) is None,
    ensures
        one_live_vote_each(entries) ==> one_live_vote_each(
            entries.push(VoteLedgerEntryView::cast(voter, weight, vote)),
        ),
        ledger_matches(proposal, entries) ==> ledger_matches(
            proposal.with_tally(tally_add(proposal.tally(), weight, vote)),
            entries.push(VoteLedgerEntryView::cast(voter, weight, vote)),
        ),
{
    let entry = VoteLedgerEntryView::cast(voter, weight, vote);
    let grown = entries.push(entry);
    let counted = proposal.with_tally(tally_add(proposal.tally(), weight, vote));
    if one_live_vote_each(entries) {
        assert forall|i: int, j: int|
            0 <= i < j < grown.len() && !(#[trigger] grown[i]).is_relinquished && !(
            #[trigger] grown[j]).is_relinquished implies grown[i].voter != grown[j].voter by {
            if j == entries.len() {
                assert(!is_live_vote_of(entries, i, voter));
            }
        }
    }
    if ledger_matches(proposal, entries) {
        let n = entries.len() as int;
        assert forall|i: int| 0 <= i < proposal.options.len() implies live_option_weight(
            grown,
            n + 1,
            i,
        ) == live_option_weight(entries, n, i) + vote.option_weight(weight, i) by {
            lemma_live_weight_prefix(entries, grown, n, i);
        }
        lemma_live_weight_prefix(entries, grown, n, 0);
        assert(counted.tally() =~= ledger_tally(
            grown,
            counted.options.len(),
            counted.deny_vote_weight is Some,
        ));
    }
}

/// A ledger that matches its proposal still does once a live vote has been
/// withdrawn, and the withdrawal is not refused.
pub proof fn lemma_relinquish_keeps_ledger(
    proposal: ProposalView,
    entries: Seq<VoteLedgerEntryView>,
    k: int,
)
    requires
        0 <= k < entries.len(),
        !entries[k].is_relinquished,
    ensures
        one_live_vote_each(entries) ==> one_live_vote_each(
            entries.update(k, entries[k].relinquished()),
        ),
        ledger_matches(proposal, entries) ==> {
            &&& relinquish_refusal(proposal, entries[k]) is None
            &&& ledger_matches(
                without_vote(proposal, entries[k]),
                entries.update(k, entries[k].relinquished()),
            )
        },
{
    let entry = entries[k];
    let updated = entries.update(k, entry.relinquished());
    let rest = without_vote(proposal, entry);
    if ledger_matches(proposal, entries) {
        if proposal.state == ProposalState::Voting {
            let n = entries.len() as int;
            assert forall|i: int| 0 <= i < proposal.options.len() implies {
                &&& live_option_weight(entries, n, i) >= entry.vote.option_weight(
                    entry.voter_weight,
                    i,
                )
                &&& live_option_weight(updated, n, i) == live_option_weight(entries, n, i)
                    - entry.vote.option_weight(entry.voter_weight, i)
            } by {
                lemma_live_weight_without(entries, k, n, i);
            }
            lemma_live_weight_without(entries, k, n, 0);
            assert forall|i: int| 0 <= i < proposal.options.len() implies !((
            #[trigger] proposal.tally().option_weights[i]) < entry.vote.option_weight(
                entry.voter_weight,
                i,
            )) by {
                lemma_live_weight_without(entries, k, n, i);
            }
            assert(rest.tally() =~= ledger_tally(
                updated,
                rest.options.len(),
                rest.deny_vote_weight is Some,
            ));
        }
    }
}

/// Casting a vote on a proposal that is voted on and then withdrawing it
/// leaves the proposal as it was before the vote.
pub proof fn lemma_cast_then_relinquish_restores(
    proposal: ProposalView,
    voter: Seq<u8>,
    weight: nat,
    vote: VoteView,
)
    requires
        proposal.state == ProposalState::Voting,
    ensures
        without_vote(
            proposal.with_tally(tally_add(proposal.tally(), weight, vote)),
            VoteLedgerEntryView::cast(voter, weight, vote),
        ) == proposal,
{
    let counted = proposal.with_tally(tally_add(proposal.tally(), weight, vote));
    let restored = without_vote(counted, VoteLedgerEntryView::cast(voter, weight, vote));
    assert(restored.options =~= proposal.options);
}

/// A ledger that matches a well-formed proposal still does when voting
/// starts: the ledger is empty and nothing has been counted.
pub proof fn lemma_sign_off_keeps_ledger(
    proposal: ProposalView,
    entries: Seq<VoteLedgerEntryView>,
    signatories_complete: bool,
    max_vote_weight: nat,
    now: int,
)
    requires
        proposal.wf(),
        proposal.state.is_editable(),
        ledger_matches(proposal, entries),
    ensures
        ledger_matches(proposal.signed_off(signatories_complete, max_vote_weight, now), entries),
{
    let signed = proposal.signed_off(signatories_complete, max_vote_weight, now);
    assert(signed.tally() =~= ledger_tally(
        entries,
        signed.options.len(),
        signed.deny_vote_weight is Some,
    ));
}

/// A ledger that matches its proposal still does after any step that ends
/// the voting period or follows it: one that leaves the options in number,
/// the denying pool in place and the vote type as they were.
pub proof fn lemma_ledger_matches_after_voting(
    before: ProposalView,
    after: ProposalView,
    entries: Seq<VoteLedgerEntryView>,
)
    requires
        ledger_matches(before, entries),
        after.options.len() == before.options.len(),
        (after.deny_vote_weight is Some) == (before.deny_vote_weight is Some),
        after.vote_type == before.vote_type,
        after.state != ProposalState::Voting,
        !after.state.is_editable(),
    ensures
        ledger_matches(after, entries),
{
}

/// Tells whether every choice names one of the first `options` options.
fn names_existing_options(choices: &Vec<VoteChoice>, options: usize) -> (all: bool)
    ensures
        all == VoteView::Approve(choices@).names_options(options as nat),
{
    let mut k: usize = 0;
    while k < choices.len()
        invariant
            k <= choices.len(),
            forall|j: int| 0 <= j < k ==> (#[trigger] choices@[j]).option_index < options,
        decreases choices.len() - k,
    {
        if choices[k].option_index >= options {
            assert(VoteView::Approve(choices@)->Approve_0[k as int].option_index >= options);
            return false;
        }
        k += 1;
    }
    true
}

/// Checks a vote against the proposal it is meant for: a denying vote needs a
/// denying pool; an approving vote must name existing options, with
/// percentages of at most 100 each and in sum, for no more options than the
/// vote type allows.
pub fn validate_vote(proposal: &Proposal, vote: &Vote) -> (result: Result<(), GovernanceError>)
    ensures
        result == refused_or_done(vote_refusal(proposal@, vote@)),
{
    match vote {
        Vote::Deny => {
            if proposal.deny_vote_weight.is_none() {
                return Err(GovernanceError::DenyVoteIsNotAllowed);
            }
            Ok(())
        },
        Vote::Approve(choices) => {
            if !names_existing_options(choices, proposal.options.len()) {
                return Err(GovernanceError::InvalidOptionIndex);
            }
            let mut total: u8 = 0;
            let mut nonzero: usize = 0;
            let mut k: usize = 0;
            while k < choices.len()
                invariant
                    k <= choices.len(),
                    vote@ == VoteView::Approve(choices@),
                    vote@.names_options(proposal@.options.len()),
                    total == choices_total(choices@, k as int),
                    total <= 100,
                    nonzero == choices_nonzero(choices@, k as int),
                    nonzero <= k,
                    forall|j: int| 0 <= j < k ==> (#[trigger] choices@[j]).weight_percentage <= 100,
                decreases choices.len() - k,
            {
                let percentage = choices[k].weight_percentage;
                if percentage > 100 || percentage > 100 - total {
                    proof {
                        lemma_choices_total_monotonic(choices@, k + 1, choices@.len() as int);
                    }
                    return Err(GovernanceError::InvalidVoteWeights);
                }
                total = total + percentage;
                if percentage > 0 {
                    nonzero = nonzero + 1;
                }
                k += 1;
            }
            let allowed = match proposal.vote_type {
                VoteType::SingleChoice => nonzero <= 1,
                VoteType::MultiChoice => true,
                VoteType::MultiWeightedChoice { max_voter_options, .. } => nonzero
                    <= max_voter_options as usize,
            };
            if !allowed {
                return Err(GovernanceError::InvalidVoteWeights);
            }
            Ok(())
        },
    }
}

/// The weights of a tally as they are held in the machine.
spec fn weights_view(weights: Seq<u64>) -> Seq<nat> {
    Seq::new(weights.len(), |i: int| weights[i] as nat)
}

/// Copies the weights counted for the options, in order.
fn counted_weights(proposal: &Proposal) -> (weights: Vec<u64>)
    ensures
        weights_view(weights@) == proposal@.tally().option_weights,
{
    let mut weights: Vec<u64> = Vec::new();
    let mut i: usize = 0;
    while i < proposal.options.len()
        invariant
            i <= proposal.options.len(),
            weights@.len() == i,
            forall|j: int| 0 <= j < i ==> weights@[j] == proposal.options@[j].vote_weight,
        decreases proposal.options.len() - i,
    {
        weights.push(proposal.options[i].vote_weight);
        i += 1;
    }
    weights
}

/// Adds to each weight what the choices of a voter give to its option.
/// Tells whether every sum fits; the weights are meaningless where one does not.
pub(crate) fn add_choices(weights: &mut Vec<u64>, voter_weight: u64, choices: &Vec<VoteChoice>) -> (fits: bool)
    requires
        forall|k: int|
            0 <= k < choices@.len() ==> (#[trigger] choices@[k]).option_index < old(weights)@.len(),
    ensures
        final(weights)@.len() == old(weights)@.len(),
        fits <==> forall|i: int|
            0 <= i < old(weights)@.len() ==> (#[trigger] old(weights)@[i]) + approved_weight(
                voter_weight as nat,
                choices@,
                choices@.len() as int,
                i,
            ) <= u64::MAX,
        fits ==> forall|i: int|
            0 <= i < old(weights)@.len() ==> (#[trigger] final(weights)@[i]) == old(weights)@[i]
                + approved_weight(voter_weight as nat, choices@, choices@.len() as int, i),
{
    let ghost before = weights@;
    let mut k: usize = 0;
    while k < choices.len()
        invariant
            k <= choices.len(),
            before == old(weights)@,
            weights@.len() == before.len(),
            forall|j: int|
                0 <= j < choices@.len() ==> (#[trigger] choices@[j]).option_index < before.len(),
            forall|i: int|
                0 <= i < before.len() ==> weights@[i] == (#[trigger] before[i]) + approved_weight(
                    voter_weight as nat,
                    choices@,
                    k as int,
                    i,
                ),
        decreases choices.len() - k,
    {
        let option = choices[k].option_index;
        let sum: u128 = weights[option] as u128 + weight_share(
            voter_weight,
            choices[k].weight_percentage,
        );
        if sum > u64::MAX as u128 {
            proof {
                lemma_approved_weight_monotonic(
                    voter_weight as nat,
                    choices@,
                    k + 1,
                    choices@.len() as int,
                    option as int,
                );
                assert(before[option as int] + approved_weight(
                    voter_weight as nat,
                    choices@,
                    choices@.len() as int,
                    option as int,
                ) > u64::MAX);
            }
            return false;
        }
        weights.set(option, sum as u64);
        k += 1;
    }
    true
}

/// Takes from each weight what the choices of a voter gave to its option.
/// Tells whether every weight suffices; the weights are meaningless where one does not.
fn sub_choices(weights: &mut Vec<u64>, voter_weight: u64, choices: &Vec<VoteChoice>) -> (suffices:
    bool)
    requires
        forall|k: int|
            0 <= k < choices@.len() ==> (#[trigger] choices@[k]).option_index < old(weights)@.len(),
    ensures
        final(weights)@.len() == old(weights)@.len(),
        suffices <==> forall|i: int|
            0 <= i < old(weights)@.len() ==> (#[trigger] old(weights)@[i]) >= approved_weight(
                voter_weight as nat,
                choices@,
                choices@.len() as int,
                i,
            ),
        suffices ==> forall|i: int|
            0 <= i < old(weights)@.len() ==> (#[trigger] final(weights)@[i]) == old(weights)@[i]
                - approved_weight(voter_weight as nat, choices@, choices@.len() as int, i),
{
    let ghost before = weights@;
    let mut k: usize = 0;
    while k < choices.len()
        invariant
            k <= choices.len(),
            before == old(weights)@,
            weights@.len() == before.len(),
            forall|j: int|
                0 <= j < choices@.len() ==> (#[trigger] choices@[j]).option_index < before.len(),
            forall|i: int|
                0 <= i < before.len() ==> weights@[i] == (#[trigger] before[i]) - approved_weight(
                    voter_weight as nat,
                    choices@,
                    k as int,
                    i,
                ),
        decreases choices.len() - k,
    {
        let option = choices[k].option_index;
        let share: u128 = weight_share(voter_weight, choices[k].weight_percentage);
        if share > weights[option] as u128 {
            proof {
                lemma_approved_weight_monotonic(
                    voter_weight as nat,
                    choices@,
                    k + 1,
                    choices@.len() as int,
                    option as int,
                );
                assert(before[option as int] < approved_weight(
                    voter_weight as nat,
                    choices@,
                    choices@.len() as int,
                    option as int,
                ));
            }
            return false;
        }
        let rest: u64 = weights[option] - share as u64;
        weights.set(option, rest);
        k += 1;
    }
    true
}

/// Puts the given weights in place of those counted for the proposal.
fn store_tally(proposal: &mut Proposal, weights: &Vec<u64>, denied: Option<u64>)
    requires
        weights@.len() == old(proposal).options@.len(),
    ensures
        final(proposal)@ == old(proposal)@.with_tally(
            Tally { option_weights: weights_view(weights@), deny_weight: weight_view(denied) },
        ),
{
    let ghost tally = Tally {
        option_weights: weights_view(weights@),
        deny_weight: weight_view(denied),
    };
    let mut i: usize = 0;
    while i < weights.len()
        invariant
            i <= weights.len(),
            weights@.len() == old(proposal).options@.len(),
            *proposal == (Proposal { options: proposal.options, ..*old(proposal) }),
            proposal.options@.len() == old(proposal).options@.len(),
            forall|j: int|
                0 <= j < i ==> (#[trigger] proposal.options@[j])@ == (ProposalOptionView {
                    vote_weight: weights@[j] as nat,
                    ..old(proposal).options@[j]@
                }),
            forall|j: int|
                i <= j < weights@.len() ==> (#[trigger] proposal.options@[j]) == old(
                    proposal,
                ).options@[j],
        decreases weights.len() - i,
    {
        proposal.options[i].vote_weight = weights[i];
        i += 1;
    }
    proposal.deny_vote_weight = denied;
    assert(proposal@.options =~= old(proposal)@.with_tally(tally).options);
}

/// Casts the vote of `voter`, who has the weight `voter_weight`, on a
/// proposal that is being voted on.
///
/// Each choice of an approving vote adds its share of the voter's weight,
/// rounded down, to the weight of its option; a denying vote adds the whole
/// weight to the denying pool. The vote is entered in the ledger as live.
/// A refused vote changes nothing.
pub fn cast_vote(
    proposal: &mut Proposal,
    ledger: &mut VoteLedger,
    voter: VoterId,
    voter_weight: u64,
    vote: Vote,
) -> (result: Result<(), GovernanceError>)
    ensures
        result == refused_or_done(
            cast_refusal(old(proposal)@, old(ledger)@, voter@, voter_weight as nat, vote@),
        ),
        match result {
            Ok(()) => {
                &&& final(proposal)@ == old(proposal)@.with_tally(
                    tally_add(old(proposal)@.tally(), voter_weight as nat, vote@),
                )
                &&& final(ledger)@ == old(ledger)@.push(
                    VoteLedgerEntryView::cast(voter@, voter_weight as nat, vote@),
                )
            },
            Err(_) => *final(proposal) == *old(proposal) && *final(ledger) == *old(ledger),
        },
        old(proposal).wf() ==> final(proposal).wf(),
        old(ledger).wf() ==> final(ledger).wf(),
        ledger_matches(old(proposal)@, old(ledger)@) ==> ledger_matches(
            final(proposal)@,
            final(ledger)@,
        ),
{
    let ghost before = proposal@;
    let ghost added = tally_add(before.tally(), voter_weight as nat, vote@);
    match proposal.state {
        ProposalState::Voting => {},
        _ => {
            return Err(GovernanceError::InvalidStateCannotVote);
        },
    }
    if ledger.find_live_vote(&voter).is_some() {
        return Err(GovernanceError::DuplicateVote);
    }
    match validate_vote(proposal, &vote) {
        Ok(()) => {},
        Err(error) => {
            return Err(error);
        },
    }
    let mut weights = counted_weights(proposal);
    let mut denied = proposal.deny_vote_weight;
    match &vote {
        Vote::Approve(choices) => {
            let ghost counted = weights@;
            if !add_choices(&mut weights, voter_weight, choices) {
                proof {
                    let i = choose|i: int|
                        0 <= i < counted.len() && (#[trigger] counted[i]) + approved_weight(
                            voter_weight as nat,
                            choices@,
                            choices@.len() as int,
                            i,
                        ) > u64::MAX;
                    assert(added.option_weights[i] > u64::MAX);
                }
                return Err(GovernanceError::ArithmeticOverflow);
            }
        },
        Vote::Deny => {
            match denied {
                Some(counted) => match counted.checked_add(voter_weight) {
                    Some(sum) => {
                        denied = Some(sum);
                    },
                    None => {
                        return Err(GovernanceError::ArithmeticOverflow);
                    },
                },
                None => {},
            }
        },
    }
    proof {
        assert(weights_view(weights@) =~= added.option_weights);
    }
    store_tally(proposal, &weights, denied);
    ledger.entries.push(VoteLedgerEntry { voter, voter_weight, vote, is_relinquished: false });
    proof {
        assert(ledger@ =~= old(ledger)@.push(
            VoteLedgerEntryView::cast(voter@, voter_weight as nat, vote@),
        ));
        if old(proposal).wf() {
            lemma_with_tally_wf(before, added);
        }
        lemma_cast_keeps_ledger(before, old(ledger)@, voter@, voter_weight as nat, vote@);
    }
    Ok(())
}

/// Withdraws the live vote of `voter`.
///
/// While the proposal is voted on, the weights that the vote added to the
/// tally are subtracted again; in any other state the tally stays as it is
/// and only the ledger records the withdrawal. A refused withdrawal changes
/// nothing. For a ledger that matches the proposal, the withdrawal of a live
/// vote is never refused.
pub fn relinquish_vote(proposal: &mut Proposal, ledger: &mut VoteLedger, voter: &VoterId) -> (result:
    Result<(), GovernanceError>)
    ensures
        result == refused_or_done(withdrawal_refusal(old(proposal)@, old(ledger)@, voter@)),
        match result {
            Ok(()) => {
                &&& first_live_vote(old(ledger)@, voter@, 0) matches Some(k)
                &&& is_live_vote_of(old(ledger)@, k, voter@)
                &&& final(proposal)@ == without_vote(old(proposal)@, old(ledger)@[k])
                &&& final(ledger)@ == old(ledger)@.update(k, old(ledger)@[k].relinquished())
            },
            Err(_) => *final(proposal) == *old(proposal) && *final(ledger) == *old(ledger),
        },
        ledger_matches(old(proposal)@, old(ledger)@) && has_live_vote(old(ledger)@, voter@)
            ==> result is Ok,
        old(proposal).wf() ==> final(proposal).wf(),
        old(ledger).wf() ==> final(ledger).wf(),
        ledger_matches(old(proposal)@, old(ledger)@) ==> ledger_matches(
            final(proposal)@,
            final(ledger)@,
        ),
{
    let ghost before = proposal@;
    let ghost entries = ledger@;
    let k = match ledger.find_live_vote(voter) {
        Some(k) => k,
        None => {
            return Err(GovernanceError::VoteNotFound);
        },
    };
    let ghost entry = entries[k as int];
    proof {
        lemma_relinquish_keeps_ledger(before, entries, k as int);
    }
    match proposal.state {
        ProposalState::Voting => {
            let ghost rest = tally_sub(before.tally(), entry.voter_weight, entry.vote);
            let mut weights = counted_weights(proposal);
            let mut denied = proposal.deny_vote_weight;
            let voter_weight = ledger.entries[k].voter_weight;
            match &ledger.entries[k].vote {
                Vote::Approve(choices) => {
                    let ghost counted = weights@;
                    if !names_existing_options(choices, proposal.options.len()) {
                        return Err(GovernanceError::InvalidOptionIndex);
                    }
                    if !sub_choices(&mut weights, voter_weight, choices) {
                        proof {
                            let i = choose|i: int|
                                0 <= i < counted.len() && (#[trigger] counted[i]) < approved_weight(
                                    voter_weight as nat,
                                    choices@,
                                    choices@.len() as int,
                                    i,
                                );
                            assert(weights_view(counted)[i] == counted[i]);
                        }
                        return Err(GovernanceError::ArithmeticOverflow);
                    }
                },
                Vote::Deny => {
                    match denied {
                        Some(counted) => {
                            if voter_weight > counted {
                                return Err(GovernanceError::ArithmeticOverflow);
                            }
                            denied = Some(counted - voter_weight);
                        },
                        None => {
                            if voter_weight > 0 {
                                return Err(GovernanceError::ArithmeticOverflow);
                            }
                        },
                    }
                },
            }
            proof {
                assert(weights_view(weights@) =~= rest.option_weights);
            }
            store_tally(proposal, &weights, denied);
            proof {
                if old(proposal).wf() {
                    lemma_with_tally_wf(before, rest);
                }
            }
        },
        _ => {},
    }
    ledger.entries[k].is_relinquished = true;
    proof {
        assert(ledger@ =~= entries.update(k as int, entry.relinquished()));
    }
    Ok(())
}

} // verus!
