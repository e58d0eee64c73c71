//! The tally of a proposal: what each vote adds to it, and what its
//! withdrawal takes away again.
//!
//! The tally is a function of the live votes alone. Casting adds a vote's
//! weights, relinquishing subtracts the same weights, and neither depends on
//! the order in which the votes arrived.

use vstd::prelude::*;
use vstd::seq_lib::{commutative_foldl, lemma_fold_left_permutation};
use crate::proposal::{ProposalOptionView, ProposalView};
use crate::vote::{choices_total, VoteChoice, VoteLedgerEntryView, VoteView};

verus! {

/// The given share of a weight, in percent, rounded down.
pub open spec fn percentage_of(weight: nat, percentage: nat) -> nat {
    weight * percentage / 100
}

/// Computes the given share of a weight, in percent, rounded down. A
/// percentage above 100 gives more than the weight, though less than three
/// times as much.
pub fn weight_share(weight: u64, percentage: u8) -> (share: u128)
    ensures
        share == percentage_of(weight as nat, percentage as nat),
        share <= 3 * weight,
        percentage <= 100 ==> share <= weight,
{
    assert(weight * percentage <= weight * 255) by (nonlinear_arith)
        requires
            percentage <= 255,
    ;
    assert(percentage <= 100 ==> weight * percentage <= weight * 100) by (nonlinear_arith);
    let product: u128 = weight as u128 * percentage as u128;
    product / 100
}

/// Weight that the first `n` choices of a voter give to the option at `option`.
pub open spec fn approved_weight(weight: nat, choices: Seq<VoteChoice>, n: int, option: int) -> nat
    decreases n,
{
    if n <= 0 {
        0
    } else {
        approved_weight(weight, choices, n - 1, option) + if choices[n - 1].option_index
            == option {
            percentage_of(weight, choices[n - 1].weight_percentage as nat)
        } else {
            0
        }
    }
}

impl VoteView {
    /// Weight that the vote of a voter of the given weight gives to an option.
    pub open spec fn option_weight(self, weight: nat, option: int) -> nat {
        match self {
            VoteView::Approve(choices) => approved_weight(
                weight,
                choices,
                choices.len() as int,
                option,
            ),
            VoteView::Deny => 0,
        }
    }

    /// Weight that the vote of a voter of the given weight gives to the denying pool.
    pub open spec fn deny_weight(self, weight: nat) -> nat {
        match self {
            VoteView::Approve(_) => 0,
            VoteView::Deny => weight,
        }
    }
}

/// Sum of the shares of a voter's weight that the first `n` choices give.
pub open spec fn shares_total(weight: nat, choices: Seq<VoteChoice>, n: int) -> nat
    decreases n,
{
    if n <= 0 {
        0
    } else {
        shares_total(weight, choices, n - 1) + percentage_of(
            weight,
            choices[n - 1].weight_percentage as nat,
        )
    }
}

/// Weight that the first `n` choices of a voter give to the first `options`
/// options together.
pub open spec fn approved_total(weight: nat, choices: Seq<VoteChoice>, n: int, options: int) -> nat
    decreases options,
{
    if options <= 0 {
        0
    } else {
        approved_total(weight, choices, n, options - 1) + approved_weight(
            weight,
            choices,
            n,
            options - 1,
        )
    }
}

/// Shares that are rounded down one by one never add up to more than the
/// share of their percentages together.
pub proof fn lemma_shares_round_down(weight: nat, choices: Seq<VoteChoice>, n: int)
    ensures
        shares_total(weight, choices, n) <= percentage_of(weight, choices_total(choices, n)),
    decreases n,
{
    if n > 0 {
        lemma_shares_round_down(weight, choices, n - 1);
        let earlier = choices_total(choices, n - 1);
        let percentage = choices[n - 1].weight_percentage as nat;
        assert(weight * (earlier + percentage) == weight * earlier + weight * percentage)
            by (nonlinear_arith);
    } else {
        assert(weight * 0 == 0) by (nonlinear_arith);
    }
}

/// One more choice gives its share to its own option and nothing to the others.
proof fn lemma_approved_total_step(weight: nat, choices: Seq<VoteChoice>, n: int, options: int)
    requires
        n > 0,
    ensures
        approved_total(weight, choices, n, options) == approved_total(
            weight,
            choices,
            n - 1,
            options,
        ) + if choices[n - 1].option_index < options {
            percentage_of(weight, choices[n - 1].weight_percentage as nat)
        } else {
            0
        },
    decreases options,
{
    if options > 0 {
        lemma_approved_total_step(weight, choices, n, options - 1);
    }
}

/// The options together get what the choices give, where every choice
/// names one of the options.
pub proof fn lemma_approved_total_is_shares_total(
    weight: nat,
    choices: Seq<VoteChoice>,
    n: int,
    options: int,
)
    requires
        n <= choices.len(),
        forall|k: int| 0 <= k < n ==> (#[trigger] choices[k]).option_index < options,
    ensures
        approved_total(weight, choices, n, options) == shares_total(weight, choices, n),
    decreases n,
{
    if n > 0 {
        lemma_approved_total_is_shares_total(weight, choices, n - 1, options);
        lemma_approved_total_step(weight, choices, n, options);
    } else {
        lemma_approved_total_of_no_choice(weight, choices, n, options);
    }
}

/// No choice gives nothing.
proof fn lemma_approved_total_of_no_choice(
    weight: nat,
    choices: Seq<VoteChoice>,
    n: int,
    options: int,
)
    requires
        n <= 0,
    ensures
        approved_total(weight, choices, n, options) == 0,
    decreases options,
{
    if options > 0 {
        lemma_approved_total_of_no_choice(weight, choices, n, options - 1);
    }
}

/// No voter counts for more than the voter's weight: the choices of a vote
/// whose percentages are at most 100 together give all the options
/// together at most the weight of the voter.
pub proof fn lemma_vote_gives_at_most_its_weight(
    weight: nat,
    choices: Seq<VoteChoice>,
    options: int,
)
    requires
        choices_total(choices, choices.len() as int) <= 100,
        forall|k: int| 0 <= k < choices.len() ==> (#[trigger] choices[k]).option_index < options,
    ensures
        approved_total(weight, choices, choices.len() as int, options) <= weight,
{
    let n = choices.len() as int;
    lemma_approved_total_is_shares_total(weight, choices, n, options);
    lemma_shares_round_down(weight, choices, n);
    assert(weight * choices_total(choices, n) <= weight * 100) by (nonlinear_arith)
        requires
            choices_total(choices, n) <= 100,
    ;
}

/// The weights counted for a proposal: one per option, and that of the
/// denying pool where the proposal has one.
#[verifier::ext_equal]
pub struct Tally {
    pub option_weights: Seq<nat>,
    pub deny_weight: Option<nat>,
}

/// The tally with the weights of one more vote.
pub open spec fn tally_add(tally: Tally, weight: nat, vote: VoteView) -> Tally {
    Tally {
        option_weights: Seq::new(
            tally.option_weights.len(),
            |i: int| tally.option_weights[i] + vote.option_weight(weight, i),
        ),
        deny_weight: match tally.deny_weight {
            Some(denied) => Some(denied + vote.deny_weight(weight)),
            None => None,
        },
    }
}

/// The tally without the weights of a vote that is part of it.
pub open spec fn tally_sub(tally: Tally, weight: nat, vote: VoteView) -> Tally {
    Tally {
        option_weights: Seq::new(
            tally.option_weights.len(),
            |i: int| (tally.option_weights[i] - vote.option_weight(weight, i)) as nat,
        ),
        deny_weight: match tally.deny_weight {
            Some(denied) => Some((denied - vote.deny_weight(weight)) as nat),
            None => None,
        },
    }
}

/// Some weight of the tally is beyond what a `u64` holds.
pub open spec fn tally_exceeds_u64(tally: Tally) -> bool {
    ||| exists|i: int| 0 <= i < tally.option_weights.len() && #[trigger] tally.option_weights[i]
        > u64::MAX
    ||| tally.deny_weight matches Some(denied) && denied > u64::MAX
}

/// The tally holds less than the vote once gave: some option less than the
/// vote's share for it, or the denying pool less than the vote's weight.
pub open spec fn tally_lacks(tally: Tally, weight: nat, vote: VoteView) -> bool {
    ||| exists|i: int|
        0 <= i < tally.option_weights.len() && (#[trigger] tally.option_weights[i])
            < vote.option_weight(weight, i)
    ||| match tally.deny_weight {
        Some(denied) => denied < vote.deny_weight(weight),
        None => vote.deny_weight(weight) > 0,
    }
}

impl ProposalView {
    /// The weights counted for the proposal.
    pub open spec fn tally(self) -> Tally {
        Tally {
            option_weights: Seq::new(self.options.len(), |i: int| self.options[i].vote_weight),
            deny_weight: self.deny_vote_weight,
        }
    }

    /// The proposal with the given weights in place of its own.
    pub open spec fn with_tally(self, tally: Tally) -> ProposalView {
        ProposalView {
            options: Seq::new(
                self.options.len(),
                |i: int|
                    ProposalOptionView { vote_weight: tally.option_weights[i], ..self.options[i] },
            ),
            deny_vote_weight: tally.deny_weight,
            ..self
        }
    }
}

/// A voter's weight together with the vote it is cast with.
pub struct Ballot {
    pub weight: nat,
    pub vote: VoteView,
}

/// The tally after the given ballots have been counted, one after the other.
pub open spec fn tally_after(tally: Tally, ballots: Seq<Ballot>) -> Tally {
    ballots.fold_left(tally, |counted: Tally, ballot: Ballot| tally_add(counted, ballot.weight, ballot.vote))
}

/// Counting two votes gives the same tally in either order.
pub proof fn lemma_tally_add_commutes(tally: Tally, first: Ballot, second: Ballot)
    ensures
        tally_add(tally_add(tally, first.weight, first.vote), second.weight, second.vote)
            == tally_add(tally_add(tally, second.weight, second.vote), first.weight, first.vote),
{
}

/// The tally does not depend on the order in which votes are counted: two
/// sequences that hold the same ballots, each as often as the other, lead
/// from the same tally to the same tally.
pub proof fn lemma_tally_order_independent(tally: Tally, first: Seq<Ballot>, second: Seq<Ballot>)
    requires
        first.to_multiset() == second.to_multiset(),
    ensures
        tally_after(tally, first) == tally_after(tally, second),
{
    let count = |counted: Tally, ballot: Ballot| tally_add(counted, ballot.weight, ballot.vote);
    assert(commutative_foldl(count)) by {
        assert forall|x: Ballot, y: Ballot, v: Tally| #[trigger]
            count(count(v, x), y) == count(count(v, y), x) by {
        }
    }
    lemma_fold_left_permutation(first, second, count, tally);
}

/// No weight of the first tally is above the same weight of the second.
pub open spec fn tally_within(first: Tally, second: Tally) -> bool {
    &&& first.option_weights.len() == second.option_weights.len()
    &&& forall|i: int|
        0 <= i < first.option_weights.len() ==> (#[trigger] first.option_weights[i])
            <= second.option_weights[i]
    &&& match (first.deny_weight, second.deny_weight) {
        (Some(denied), Some(more)) => denied <= more,
        (None, None) => true,
        _ => false,
    }
}

/// Counting votes never lowers a weight: the tally after the first `n` of
/// the ballots is within the tally after all of them.
pub proof fn lemma_tally_after_never_lowers(tally: Tally, ballots: Seq<Ballot>, n: int)
    requires
        0 <= n <= ballots.len(),
    ensures
        tally_within(tally_after(tally, ballots.take(n)), tally_after(tally, ballots)),
    decreases ballots.len() - n,
{
    if n < ballots.len() {
        lemma_tally_after_never_lowers(tally, ballots, n + 1);
        let part = tally_after(tally, ballots.take(n));
        let more = tally_after(tally, ballots.take(n + 1));
        assert(ballots.take(n + 1).drop_last() =~= ballots.take(n));
        assert(tally_within(part, more));
    }
}

/// Whether the weights fit a `u64` does not depend on the order of the
/// votes either: where the tally after all the ballots fits in one order,
/// the tally fits after every vote in any other order.
pub proof fn lemma_tally_fits_in_any_order(
    tally: Tally,
    first: Seq<Ballot>,
    second: Seq<Ballot>,
    n: int,
)
    requires
        first.to_multiset() == second.to_multiset(),
        !tally_exceeds_u64(tally_after(tally, first)),
        0 <= n <= second.len(),
    ensures
        !tally_exceeds_u64(tally_after(tally, second.take(n))),
{
    lemma_tally_order_independent(tally, first, second);
    lemma_tally_after_never_lowers(tally, second, n);
}

/// Withdrawing a vote that has just been counted gives back the tally
/// from before it was counted.
pub proof fn lemma_relinquish_undoes_cast(tally: Tally, weight: nat, vote: VoteView)
    ensures
        tally_sub(tally_add(tally, weight, vote), weight, vote) == tally,
{
}

/// The proposal after the given ballots have been cast on it, one after the other.
pub open spec fn cast_all(proposal: ProposalView, ballots: Seq<Ballot>) -> ProposalView
    decreases ballots.len(),
{
    if ballots.len() == 0 {
        proposal
    } else {
        let counted = cast_all(proposal, ballots.drop_last());
        counted.with_tally(
            tally_add(counted.tally(), ballots.last().weight, ballots.last().vote),
        )
    }
}

/// Casting ballots one after the other changes nothing but the tally, and
/// leads to the tally that counting them gives.
pub proof fn lemma_cast_all_counts(proposal: ProposalView, ballots: Seq<Ballot>)
    ensures
        cast_all(proposal, ballots) == proposal.with_tally(
            tally_after(proposal.tally(), ballots),
        ),
        tally_after(proposal.tally(), ballots).option_weights.len() == proposal.options.len(),
    decreases ballots.len(),
{
    if ballots.len() == 0 {
        assert(proposal.with_tally(proposal.tally()).options =~= proposal.options);
    } else {
        lemma_cast_all_counts(proposal, ballots.drop_last());
        let earlier = tally_after(proposal.tally(), ballots.drop_last());
        let counted = proposal.with_tally(earlier);
        assert(counted.tally() =~= earlier);
        let all = tally_add(earlier, ballots.last().weight, ballots.last().vote);
        assert(counted.with_tally(all).options =~= proposal.with_tally(all).options);
    }
}

/// The votes cast on a proposal lead to the same weight for every option and
/// for the denying pool in whatever order they are cast: two sequences that
/// hold the same ballots, each as often as the other, leave the same proposal.
pub proof fn lemma_cast_order_independent(
    proposal: ProposalView,
    first: Seq<Ballot>,
    second: Seq<Ballot>,
)
    requires
        first.to_multiset() == second.to_multiset(),
    ensures
        cast_all(proposal, first) == cast_all(proposal, second),
{
    lemma_cast_all_counts(proposal, first);
    lemma_cast_all_counts(proposal, second);
    lemma_tally_order_independent(proposal.tally(), first, second);
}

/// The weight that the first choices give to an option never exceeds what more of them give.
pub proof fn lemma_approved_weight_monotonic(
    weight: nat,
    choices: Seq<VoteChoice>,
    m: int,
    n: int,
    option: int,
)
    requires
        m <= n,
    ensures
        approved_weight(weight, choices, m, option) <= approved_weight(weight, choices, n, option),
    decreases n - m,
{
    if m < n {
        lemma_approved_weight_monotonic(weight, choices, m, n - 1, option);
    }
}

impl VoteLedgerEntryView {
    /// Weight that the entry gives to an option: that of its vote while the
    /// vote is live, nothing once it has been withdrawn.
    pub open spec fn live_option_weight(self, option: int) -> nat {
        if self.is_relinquished {
            0
        } else {
            self.vote.option_weight(self.voter_weight, option)
        }
    }

    /// Weight that the entry gives to the denying pool: that of its vote
    /// while the vote is live, nothing once it has been withdrawn.
    pub open spec fn live_deny_weight(self) -> nat {
        if self.is_relinquished {
            0
        } else {
            self.vote.deny_weight(self.voter_weight)
        }
    }
}

/// Weight that the live votes among the first `n` entries give to an option.
pub open spec fn live_option_weight(entries: Seq<VoteLedgerEntryView>, n: int, option: int) -> nat
    decreases n,
{
    if n <= 0 {
        0
    } else {
        live_option_weight(entries, n - 1, option) + entries[n - 1].live_option_weight(option)
    }
}

/// Weight that the live votes among the first `n` entries give to the denying pool.
pub open spec fn live_deny_weight(entries: Seq<VoteLedgerEntryView>, n: int) -> nat
    decreases n,
{
    if n <= 0 {
        0
    } else {
        live_deny_weight(entries, n - 1) + entries[n - 1].live_deny_weight()
    }
}

/// The tally that the live votes of a ledger amount to, for a proposal
/// with the given number of options.
pub open spec fn ledger_tally(entries: Seq<VoteLedgerEntryView>, options: nat, has_deny_pool: bool) -> Tally {
    Tally {
        option_weights: Seq::new(
            options,
            |i: int| live_option_weight(entries, entries.len() as int, i),
        ),
        deny_weight: if has_deny_pool {
            Some(live_deny_weight(entries, entries.len() as int))
        } else {
            None
        },
    }
}

/// What the live votes give to an option depends on the entries looked at alone.
pub proof fn lemma_live_weight_prefix(
    a: Seq<VoteLedgerEntryView>,
    b: Seq<VoteLedgerEntryView>,
    n: int,
    option: int,
)
    requires
        0 <= n <= a.len(),
        n <= b.len(),
        forall|i: int| 0 <= i < n ==> a[i] == b[i],
    ensures
        live_option_weight(a, n, option) == live_option_weight(b, n, option),
        live_deny_weight(a, n) == live_deny_weight(b, n),
    decreases n,
{
    if n > 0 {
        lemma_live_weight_prefix(a, b, n - 1, option);
    }
}

/// What the live votes among the first entries give never exceeds what
/// those among more of them give.
pub proof fn lemma_live_weight_monotonic(
    entries: Seq<VoteLedgerEntryView>,
    m: int,
    n: int,
    option: int,
)
    requires
        m <= n,
    ensures
        live_option_weight(entries, m, option) <= live_option_weight(entries, n, option),
        live_deny_weight(entries, m) <= live_deny_weight(entries, n),
    decreases n - m,
{
    if m < n {
        lemma_live_weight_monotonic(entries, m, n - 1, option);
    }
}

/// The live votes give an option at least what any one of them gives it, and
/// withdrawing one takes away exactly what it gave.
pub proof fn lemma_live_weight_without(
    entries: Seq<VoteLedgerEntryView>,
    k: int,
    n: int,
    option: int,
)
    requires
        0 <= k < n <= entries.len(),
        !entries[k].is_relinquished,
    ensures
        live_option_weight(entries, n, option) >= entries[k].vote.option_weight(
            entries[k].voter_weight,
            option,
        ),
        live_option_weight(entries.update(k, entries[k].relinquished()), n, option)
            == live_option_weight(entries, n, option) - entries[k].vote.option_weight(
            entries[k].voter_weight,
            option,
        ),
        live_deny_weight(entries, n) >= entries[k].vote.deny_weight(entries[k].voter_weight),
        live_deny_weight(entries.update(k, entries[k].relinquished()), n) == live_deny_weight(
            entries,
            n,
        ) - entries[k].vote.deny_weight(entries[k].voter_weight),
    decreases n,
{
    let updated = entries.update(k, entries[k].relinquished());
    if k == n - 1 {
        lemma_live_weight_prefix(entries, updated, n - 1, option);
    } else {
        lemma_live_weight_without(entries, k, n - 1, option);
    }
}

/// The sum so far with what one more entry gives to an option.
pub open spec fn add_option_weight(option: int) -> spec_fn(nat, VoteLedgerEntryView) -> nat {
    |sum: nat, entry: VoteLedgerEntryView| sum + entry.live_option_weight(option)
}

/// The sum so far with what one more entry gives to the denying pool.
pub open spec fn add_deny_weight() -> spec_fn(nat, VoteLedgerEntryView) -> nat {
    |sum: nat, entry: VoteLedgerEntryView| sum + entry.live_deny_weight()
}

/// The weights of the live votes are sums over the entries.
pub proof fn lemma_live_weight_is_sum(entries: Seq<VoteLedgerEntryView>, option: int)
    ensures
        live_option_weight(entries, entries.len() as int, option) == entries.fold_left(
            0nat,
            add_option_weight(option),
        ),
        live_deny_weight(entries, entries.len() as int) == entries.fold_left(
            0nat,
            add_deny_weight(),
        ),
    decreases entries.len(),
{
    if entries.len() > 0 {
        let earlier = entries.drop_last();
        lemma_live_weight_is_sum(earlier, option);
        lemma_live_weight_prefix(earlier, entries, earlier.len() as int, option);
    }
}

/// The tally that a ledger amounts to does not depend on the order of its
/// entries, and so not on the order in which votes were cast and withdrawn:
/// two ledgers that hold the same entries, each as often as the other,
/// amount to the same tally.
pub proof fn lemma_ledger_tally_order_independent(
    first: Seq<VoteLedgerEntryView>,
    second: Seq<VoteLedgerEntryView>,
    options: nat,
    has_deny_pool: bool,
)
    requires
        first.to_multiset() == second.to_multiset(),
    ensures
        ledger_tally(first, options, has_deny_pool) == ledger_tally(second, options, has_deny_pool),
{
    assert forall|i: int| 0 <= i < options implies live_option_weight(
        first,
        first.len() as int,
        i,
    ) == live_option_weight(second, second.len() as int, i) by {
        lemma_live_weight_is_sum(first, i);
        lemma_live_weight_is_sum(second, i);
        lemma_fold_left_permutation(first, second, add_option_weight(i), 0nat);
    }
    lemma_live_weight_is_sum(first, 0);
    lemma_live_weight_is_sum(second, 0);
    lemma_fold_left_permutation(first, second, add_deny_weight(), 0nat);
}

} // verus!
