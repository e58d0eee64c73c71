//! Insertion of options into a proposal, within the storage reserved for it.
//!
//! The accounted size is computed anew from the proposal on every call and
//! carried through the batch option by option. A batch is applied as a whole
//! or not at all.

use vstd::prelude::*;
use crate::error::{refused_or_done, GovernanceError};
use crate::proposal::{
    option_size, options_size, Proposal, ProposalOption, ProposalOptionView, ProposalView,
    OPTION_BASE_SIZE,
};

verus! {

/// The given labels as sequences of characters.
pub open spec fn label_views(labels: Seq<String>) -> Seq<Seq<char>> {
    Seq::new(labels.len(), |i: int| labels[i]@)
}

/// Footprint of the options made from the first `n` labels.
pub open spec fn labels_size(labels: Seq<Seq<char>>, n: int) -> nat
    decreases n,
{
    if n <= 0 {
        0
    } else {
        labels_size(labels, n - 1) + option_size(labels[n - 1])
    }
}

/// Accounted size of the proposal once the first `n` labels have been inserted.
pub open spec fn size_after(proposal: ProposalView, labels: Seq<Seq<char>>, n: int) -> nat {
    proposal.size() + labels_size(labels, n)
}

/// The first `n` labels can be inserted one after the other without leaving
/// the reserved storage.
pub open spec fn fits(proposal: ProposalView, labels: Seq<Seq<char>>, n: int) -> bool {
    n <= 0 || size_after(proposal, labels, n) <= proposal.account_size
}

/// The label at `i` is the first whose insertion would leave the reserved storage.
pub open spec fn overflows_first_at(proposal: ProposalView, labels: Seq<Seq<char>>, i: int) -> bool {
    &&& 0 <= i < labels.len()
    &&& fits(proposal, labels, i)
    &&& size_after(proposal, labels, i + 1) > proposal.account_size
}

/// The options that are inserted for the given labels.
pub open spec fn fresh_options(labels: Seq<Seq<char>>) -> Seq<ProposalOptionView> {
    Seq::new(labels.len(), |i: int| ProposalOptionView::fresh(labels[i]))
}

/// The proposal with an option appended for each label, in order.
pub open spec fn with_options(proposal: ProposalView, labels: Seq<Seq<char>>) -> ProposalView {
    ProposalView { options: proposal.options + fresh_options(labels), ..proposal }
}

/// Once an insertion of a batch has left the reserved storage, every later
/// one of the batch has left it too: the accounted size never shrinks.
pub proof fn lemma_capacity_monotonic(
    proposal: ProposalView,
    labels: Seq<Seq<char>>,
    i: int,
    k: int,
)
    requires
        i <= k,
    ensures
        size_after(proposal, labels, i) <= size_after(proposal, labels, k),
        0 < k && size_after(proposal, labels, i) > proposal.account_size ==> !fits(
            proposal,
            labels,
            k,
        ),
    decreases k - i,
{
    if i < k {
        lemma_capacity_monotonic(proposal, labels, i, k - 1);
    }
}

/// At most one label of a batch is the first to leave the reserved storage,
/// and there is one exactly when the batch as a whole does not fit.
pub proof fn lemma_first_overflow(proposal: ProposalView, labels: Seq<Seq<char>>)
    ensures
        forall|i: int, j: int|
            overflows_first_at(proposal, labels, i) && overflows_first_at(proposal, labels, j)
                ==> i == j,
        (exists|i: int| overflows_first_at(proposal, labels, i)) <==> !fits(
            proposal,
            labels,
            labels.len() as int,
        ),
{
    assert forall|i: int, j: int|
        overflows_first_at(proposal, labels, i) && overflows_first_at(
            proposal,
            labels,
            j,
        ) implies i == j by {
        if i < j {
            lemma_capacity_monotonic(proposal, labels, i + 1, j);
        } else if j < i {
            lemma_capacity_monotonic(proposal, labels, j + 1, i);
        }
    }
    if exists|i: int| overflows_first_at(proposal, labels, i) {
        let i = choose|i: int| overflows_first_at(proposal, labels, i);
        lemma_capacity_monotonic(proposal, labels, i + 1, labels.len() as int);
    }
    if !fits(proposal, labels, labels.len() as int) {
        lemma_overflow_has_first(proposal, labels, labels.len() as int);
    }
}

/// Where the first `n` labels do not fit, one of them is the first that does not.
proof fn lemma_overflow_has_first(proposal: ProposalView, labels: Seq<Seq<char>>, n: int)
    requires
        0 <= n <= labels.len(),
        !fits(proposal, labels, n),
    ensures
        exists|i: int| 0 <= i < n && overflows_first_at(proposal, labels, i),
    decreases n,
{
    if fits(proposal, labels, n - 1) {
        assert(overflows_first_at(proposal, labels, n - 1));
    } else {
        lemma_overflow_has_first(proposal, labels, n - 1);
    }
}

/// Appending the options of a batch adds exactly their footprints.
pub proof fn lemma_size_with_options(proposal: ProposalView, labels: Seq<Seq<char>>, n: int)
    requires
        0 <= n <= labels.len(),
    ensures
        options_size(
            proposal.options + fresh_options(labels),
            proposal.options.len() + n,
        ) == options_size(proposal.options, proposal.options.len() as int) + labels_size(
            labels,
            n,
        ),
    decreases n,
{
    let extended = proposal.options + fresh_options(labels);
    if n == 0 {
        lemma_options_size_prefix(proposal.options, extended, proposal.options.len() as int);
    } else {
        lemma_size_with_options(proposal, labels, n - 1);
    }
}

/// The footprint of a prefix depends on that prefix alone.
proof fn lemma_options_size_prefix(
    a: Seq<ProposalOptionView>,
    b: Seq<ProposalOptionView>,
    n: int,
)
    requires
        0 <= n <= a.len() <= b.len(),
        forall|i: int| 0 <= i < n ==> a[i] == b[i],
    ensures
        options_size(a, n) == options_size(b, n),
    decreases n,
{
    if n > 0 {
        lemma_options_size_prefix(a, b, n - 1);
    }
}

/// Position of the first label whose insertion would leave the reserved
/// storage, where the batch does not fit.
pub open spec fn first_overflow(proposal: ProposalView, labels: Seq<Seq<char>>) -> int {
    choose|i: int| overflows_first_at(proposal, labels, i)
}

/// Why the batch cannot be inserted; `None` where it can.
///
/// The reasons are looked for in this order: the proposal is no longer
/// being drafted or signed off; its size does not fit a `usize`; the batch
/// does not fit the storage reserved for the proposal. The last refusal
/// names the footprint of the first option that does not fit, the size
/// accounted with that option included, and the storage reserved.
pub open spec fn insertion_refusal(proposal: ProposalView, labels: Seq<Seq<char>>) -> Option<
    GovernanceError,
> {
    if !proposal.state.is_editable() {
        Some(GovernanceError::InvalidStateCannotEdit)
    } else if proposal.size() > usize::MAX {
        Some(GovernanceError::CannotCalculateSizeOfProposalData)
    } else if !fits(proposal, labels, labels.len() as int) {
        let i = first_overflow(proposal, labels);
        Some(
            GovernanceError::CapacityExceeded {
                new_size: option_size(labels[i]) as u128,
                current_size: size_after(proposal, labels, i + 1) as u128,
                account_size: proposal.account_size as u128,
            },
        )
    } else {
        None
    }
}

/// A batch with an option whose insertion would leave the reserved storage
/// is refused as a whole: no part of it that includes that option fits, so
/// neither that option nor any later one is inserted. As a refused batch
/// changes nothing, none of the options before it is inserted either.
pub proof fn lemma_overflowing_batch_is_refused(
    proposal: ProposalView,
    labels: Seq<Seq<char>>,
    i: int,
)
    requires
        0 <= i < labels.len(),
        size_after(proposal, labels, i + 1) > proposal.account_size,
    ensures
        insertion_refusal(proposal, labels) is Some,
        forall|n: int| i < n <= labels.len() ==> !#[trigger] fits(proposal, labels, n),
{
    assert forall|n: int| i < n <= labels.len() implies !#[trigger] fits(
        proposal,
        labels,
        n,
    ) by {
        lemma_capacity_monotonic(proposal, labels, i + 1, n);
    }
}

/// Accounts for one more option: the size accounted so far, grown by the
/// footprint of an option with the given label, where that is within the
/// storage reserved; else the refusal, which names the footprint and the
/// size that it would have led to.
pub fn account_option(accounted_size: usize, label: &String, account_size: usize) -> (result:
    Result<usize, GovernanceError>)
    ensures
        match result {
            Ok(grown) => {
                &&& grown == accounted_size + option_size(label@)
                &&& grown <= account_size
            },
            Err(error) => {
                &&& accounted_size + option_size(label@) > account_size
                &&& error matches GovernanceError::CapacityExceeded {
                    new_size,
                    current_size,
                    account_size: reserved,
                }
                &&& new_size == option_size(label@)
                &&& current_size == accounted_size + option_size(label@)
                &&& reserved == account_size
            },
        },
{
    let new_size: u128 = OPTION_BASE_SIZE as u128 + label.as_str().as_bytes().len() as u128;
    let grown: u128 = accounted_size as u128 + new_size;
    if grown > account_size as u128 {
        return Err(
            GovernanceError::CapacityExceeded {
                new_size,
                current_size: grown,
                account_size: account_size as u128,
            },
        );
    }
    Ok(grown as usize)
}

/// Inserts an option for each of the given labels, in order, into a proposal
/// that is being drafted or signed off.
///
/// The accounted size of the proposal is computed anew and grown label by
/// label. The batch is refused at the first label with which the size would
/// pass the storage reserved for the proposal; the error names that label's
/// footprint and the size it would have led to. A refused batch changes
/// nothing.
pub fn process_insert_proposal_options(proposal: &mut Proposal, options: Vec<String>) -> (result:
    Result<(), GovernanceError>)
    ensures
        result == refused_or_done(insertion_refusal(old(proposal)@, label_views(options@))),
        match result {
            Ok(()) => final(proposal)@ == with_options(old(proposal)@, label_views(options@)),
            Err(_) => *final(proposal) == *old(proposal),
        },
        old(proposal).wf() ==> final(proposal).wf(),
{
    let ghost before = proposal@;
    let ghost labels = label_views(options@);
    match proposal.assert_can_insert_proposal_options() {
        Ok(()) => {},
        Err(error) => {
            return Err(error);
        },
    }
    let mut proposal_data_size: usize = match proposal.get_max_size() {
        Some(size) => size,
        None => {
            return Err(GovernanceError::CannotCalculateSizeOfProposalData);
        },
    };
    let proposal_account_size: usize = proposal.account_size;

    let mut i: usize = 0;
    while i < options.len()
        invariant
            i <= options.len(),
            labels == label_views(options@),
            *proposal == *old(proposal),
            before == proposal@,
            before.state.is_editable(),
            before.size() <= usize::MAX,
            proposal_account_size == proposal.account_size,
            proposal_data_size == size_after(before, labels, i as int),
            fits(before, labels, i as int),
        decreases options.len() - i,
    {
        match account_option(proposal_data_size, &options[i], proposal_account_size) {
            Ok(grown) => {
                proposal_data_size = grown;
            },
            Err(error) => {
                proof {
                    assert(overflows_first_at(before, labels, i as int));
                    lemma_first_overflow(before, labels);
                }
                return Err(error);
            },
        }
        i += 1;
    }

    let ghost fresh = fresh_options(labels);
    let ghost kept = proposal.options@;
    let mut j: usize = 0;
    while j < options.len()
        invariant
            j <= options.len(),
            labels == label_views(options@),
            fresh == fresh_options(labels),
            kept == old(proposal).options@,
            before == old(proposal)@,
            *proposal == (Proposal { options: proposal.options, ..*old(proposal) }),
            proposal.options@.len() == kept.len() + j,
            forall|k: int| 0 <= k < kept.len() ==> proposal.options@[k] == kept[k],
            forall|k: int|
                kept.len() <= k < kept.len() + j ==> (#[trigger] proposal.options@[k])@ == fresh[k
                    - kept.len()],
        decreases options.len() - j,
    {
        proposal.options.push(ProposalOption::new(options[j].clone()));
        j += 1;
    }
    proof {
        assert(proposal@.options =~= before.options + fresh);
        if old(proposal).wf() {
            lemma_size_with_options(before, labels, labels.len() as int);
        }
    }
    Ok(())
}

} // verus!
