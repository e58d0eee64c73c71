//! The ranking of the candidates is a strict order, and so the cap on the
//! number of winners holds: no more options win than the vote type allows.

use vstd::prelude::*;
use crate::proposal::ProposalView;

verus! {

impl ProposalView {
    /// Number of candidates that are ranked before the option at `i`.
    pub open spec fn rank(self, i: int) -> nat {
        self.candidates_ahead(i, self.options.len() as int)
    }

    /// Number of winners among the first `n` options.
    pub open spec fn winners_among(self, n: int) -> nat
        decreases n,
    {
        if n <= 0 {
            0
        } else {
            self.winners_among(n - 1) + if self.wins(n - 1) {
                1nat
            } else {
                0nat
            }
        }
    }

    /// Number of candidates among the first `n` options with fewer than
    /// `k` candidates ranked before them.
    pub open spec fn ranked_below(self, k: nat, n: int) -> nat
        decreases n,
    {
        if n <= 0 {
            0
        } else {
            self.ranked_below(k, n - 1) + if self.is_candidate(n - 1) && self.rank(n - 1) < k {
                1nat
            } else {
                0nat
            }
        }
    }

    /// Number of candidates among the first `n` options with exactly `k`
    /// candidates ranked before them.
    pub open spec fn ranked_at(self, k: nat, n: int) -> nat
        decreases n,
    {
        if n <= 0 {
            0
        } else {
            self.ranked_at(k, n - 1) + if self.is_candidate(n - 1) && self.rank(n - 1) == k {
                1nat
            } else {
                0nat
            }
        }
    }
}

/// Of two different candidates one is ranked before the other, and never
/// both; and whoever is ranked before a candidate that is ranked before a
/// third is ranked before the third.
pub proof fn lemma_ranking_is_strict_order(proposal: ProposalView, a: int, b: int, c: int)
    ensures
        !proposal.outranks(a, a),
        proposal.is_candidate(a) && proposal.is_candidate(b) && a != b ==> (proposal.outranks(a, b)
            != proposal.outranks(b, a)),
        proposal.outranks(a, b) && proposal.outranks(b, c) ==> proposal.outranks(a, c),
{
}

/// A candidate that is ranked before another has fewer candidates before it.
pub proof fn lemma_rank_follows_ranking(proposal: ProposalView, a: int, b: int, n: int)
    requires
        proposal.outranks(a, b),
        proposal.is_candidate(b),
        n <= proposal.options.len(),
    ensures
        proposal.candidates_ahead(b, n) >= proposal.candidates_ahead(a, n) + if a < n {
            1nat
        } else {
            0nat
        },
    decreases n,
{
    if n > 0 {
        lemma_rank_follows_ranking(proposal, a, b, n - 1);
    }
}

/// No two candidates have the same number of candidates before them.
pub proof fn lemma_ranks_differ(proposal: ProposalView, a: int, b: int)
    requires
        proposal.is_candidate(a),
        proposal.is_candidate(b),
        a != b,
    ensures
        proposal.rank(a) != proposal.rank(b),
{
    if proposal.outranks(a, b) {
        lemma_rank_follows_ranking(proposal, a, b, proposal.options.len() as int);
    } else {
        lemma_rank_follows_ranking(proposal, b, a, proposal.options.len() as int);
    }
}

/// At most one candidate has exactly `k` candidates before it.
pub proof fn lemma_one_candidate_at_each_rank(proposal: ProposalView, k: nat, n: int)
    requires
        n <= proposal.options.len(),
    ensures
        proposal.ranked_at(k, n) <= 1,
        proposal.ranked_at(k, n) == 1 ==> exists|i: int|
            0 <= i < n && proposal.is_candidate(i) && #[trigger] proposal.rank(i) == k,
    decreases n,
{
    if n > 0 {
        lemma_one_candidate_at_each_rank(proposal, k, n - 1);
        if proposal.is_candidate(n - 1) && proposal.rank(n - 1) == k {
            if proposal.ranked_at(k, n - 1) == 1 {
                let i = choose|i: int|
                    0 <= i < n - 1 && proposal.is_candidate(i) && #[trigger] proposal.rank(i) == k;
                lemma_ranks_differ(proposal, i, n - 1);
            }
        }
    }
}

/// The candidates with fewer than `k + 1` candidates before them are those
/// with fewer than `k` and the one, if any, with exactly `k`.
pub proof fn lemma_ranked_below_grows_by_one_rank(proposal: ProposalView, k: nat, n: int)
    ensures
        proposal.ranked_below(k + 1, n) == proposal.ranked_below(k, n) + proposal.ranked_at(k, n),
    decreases n,
{
    if n > 0 {
        lemma_ranked_below_grows_by_one_rank(proposal, k, n - 1);
    }
}

/// At most `k` candidates have fewer than `k` candidates before them.
pub proof fn lemma_ranked_below_is_bounded(proposal: ProposalView, k: nat, n: int)
    requires
        n <= proposal.options.len(),
    ensures
        proposal.ranked_below(k, n) <= k,
    decreases k, n,
{
    if k == 0 {
        if n > 0 {
            lemma_ranked_below_is_bounded(proposal, k, n - 1);
        }
    } else {
        lemma_ranked_below_is_bounded(proposal, (k - 1) as nat, n);
        lemma_ranked_below_grows_by_one_rank(proposal, (k - 1) as nat, n);
        lemma_one_candidate_at_each_rank(proposal, (k - 1) as nat, n);
    }
}

/// The winners are the candidates with fewer candidates before them than
/// options may win.
pub proof fn lemma_winners_are_top_ranked(proposal: ProposalView, n: int)
    ensures
        proposal.winners_among(n) == proposal.ranked_below(
            proposal.vote_type.max_winning_options(),
            n,
        ),
    decreases n,
{
    if n > 0 {
        lemma_winners_are_top_ranked(proposal, n - 1);
    }
}

/// No more options win than the vote type allows.
pub proof fn lemma_winners_are_capped(proposal: ProposalView)
    ensures
        proposal.winners_among(proposal.options.len() as int)
            <= proposal.vote_type.max_winning_options(),
{
    lemma_winners_are_top_ranked(proposal, proposal.options.len() as int);
    lemma_ranked_below_is_bounded(
        proposal,
        proposal.vote_type.max_winning_options(),
        proposal.options.len() as int,
    );
}

} // verus!
