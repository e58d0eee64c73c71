//! Votes and the ledger that records who cast which vote on a proposal.

use vstd::prelude::*;
use crate::state::VoteType;

verus! {

/// Number of bytes that identify a voter.
pub const VOTER_ID_LENGTH: usize = 32;

/// Identity of a voter.
#[derive(Clone, Copy, Debug, PartialEq, Eq)]
pub struct VoterId {
    pub bytes: [u8; 32],
}

impl View for VoterId {
    type V = Seq<u8>;

    open spec fn view(&self) -> Seq<u8> {
        self.bytes@
    }
}

impl VoterId {
    /// Wraps the bytes that identify a voter.
    pub fn new(bytes: [u8; 32]) -> (id: VoterId)
        ensures
            id@ == bytes@,
    {
        VoterId { bytes }
    }

    /// Tells whether two identities are the same voter's.
    pub fn same_as(&self, other: &VoterId) -> (same: bool)
        ensures
            same == (self@ == other@),
    {
        let mut i: usize = 0;
        while i < VOTER_ID_LENGTH
            invariant
                i <= VOTER_ID_LENGTH,
                forall|j: int| 0 <= j < i ==> self.bytes@[j] == other.bytes@[j],
            decreases VOTER_ID_LENGTH - i,
        {
            if self.bytes[i] != other.bytes[i] {
                return false;
            }
            i += 1;
        }
        assert(self.bytes@ =~= other.bytes@);
        true
    }
}

/// The share of a voter's weight that goes to one option.
#[derive(Clone, Copy, Debug, PartialEq, Eq, Structural)]
pub struct VoteChoice {
    /// Position of the option among the proposal's options.
    pub option_index: usize,
    /// Share of the voter's weight, in percent.
    pub weight_percentage: u8,
}

/// Mathematical model of a [`Vote`].
pub enum VoteView {
    Approve(Seq<VoteChoice>),
    Deny,
}

/// What a voter says of a proposal.
#[derive(Clone, Debug, PartialEq, Eq)]
pub enum Vote {
    /// The voter's weight, spread over options.
    Approve(Vec<VoteChoice>),
    /// Rejection of every option.
    Deny,
}

impl View for Vote {
    type V = VoteView;

    open spec fn view(&self) -> VoteView {
        match self {
            Vote::Approve(choices) => VoteView::Approve(choices@),
            Vote::Deny => VoteView::Deny,
        }
    }
}

/// Mathematical model of a [`VoteLedgerEntry`].
pub struct VoteLedgerEntryView {
    pub voter: Seq<u8>,
    pub voter_weight: nat,
    pub vote: VoteView,
    pub is_relinquished: bool,
}

impl VoteLedgerEntryView {
    /// The entry of a vote that has just been cast.
    pub open spec fn cast(voter: Seq<u8>, voter_weight: nat, vote: VoteView) -> VoteLedgerEntryView {
        VoteLedgerEntryView { voter, voter_weight, vote, is_relinquished: false }
    }

    /// The entry once its vote has been withdrawn.
    pub open spec fn relinquished(self) -> VoteLedgerEntryView {
        VoteLedgerEntryView { is_relinquished: true, ..self }
    }
}

/// The vote of one voter on one proposal.
#[derive(Clone, Debug, PartialEq, Eq)]
pub struct VoteLedgerEntry {
    /// Who voted.
    pub voter: VoterId,
    /// The weight the voter had when voting.
    pub voter_weight: u64,
    /// What the voter said.
    pub vote: Vote,
    /// Whether the voter has withdrawn the vote.
    pub is_relinquished: bool,
}

impl View for VoteLedgerEntry {
    type V = VoteLedgerEntryView;

    open spec fn view(&self) -> VoteLedgerEntryView {
        VoteLedgerEntryView {
            voter: self.voter@,
            voter_weight: self.voter_weight as nat,
            vote: self.vote@,
            is_relinquished: self.is_relinquished,
        }
    }
}

/// The entry at `i` is a vote of `voter` that has not been withdrawn.
pub open spec fn is_live_vote_of(entries: Seq<VoteLedgerEntryView>, i: int, voter: Seq<u8>) -> bool {
    &&& 0 <= i < entries.len()
    &&& !entries[i].is_relinquished
    &&& entries[i].voter == voter
}

/// The voter has a vote among the entries that has not been withdrawn.
pub open spec fn has_live_vote(entries: Seq<VoteLedgerEntryView>, voter: Seq<u8>) -> bool {
    exists|i: int| is_live_vote_of(entries, i, voter)
}

/// Position of the first live vote of `voter` at or after `from`, if there is one.
pub open spec fn first_live_vote(entries: Seq<VoteLedgerEntryView>, voter: Seq<u8>, from: int) -> Option<int>
    decreases entries.len() - from,
{
    if from < 0 || from >= entries.len() {
        None
    } else if is_live_vote_of(entries, from, voter) {
        Some(from)
    } else {
        first_live_vote(entries, voter, from + 1)
    }
}

/// The first live vote of a voter is a live vote of that voter, and there is
/// one exactly where the voter has a live vote.
pub proof fn lemma_first_live_vote(entries: Seq<VoteLedgerEntryView>, voter: Seq<u8>, from: int)
    requires
        0 <= from,
    ensures
        match first_live_vote(entries, voter, from) {
            Some(i) => from <= i && is_live_vote_of(entries, i, voter),
            None => forall|i: int| from <= i ==> !is_live_vote_of(entries, i, voter),
        },
    decreases entries.len() - from,
{
    if from < entries.len() && !is_live_vote_of(entries, from, voter) {
        lemma_first_live_vote(entries, voter, from + 1);
    }
}

/// No voter has two votes among the entries that have not been withdrawn.
pub open spec fn one_live_vote_each(entries: Seq<VoteLedgerEntryView>) -> bool {
    forall|i: int, j: int|
        0 <= i < j < entries.len() && !(#[trigger] entries[i]).is_relinquished && !(
        #[trigger] entries[j]).is_relinquished ==> entries[i].voter != entries[j].voter
}

/// The votes cast on one proposal, in the order in which they were cast.
#[derive(Clone, Debug, PartialEq, Eq)]
pub struct VoteLedger {
    pub entries: Vec<VoteLedgerEntry>,
}

impl View for VoteLedger {
    type V = Seq<VoteLedgerEntryView>;

    open spec fn view(&self) -> Seq<VoteLedgerEntryView> {
        Seq::new(self.entries@.len(), |i: int| self.entries@[i]@)
    }
}

impl VoteLedger {
    /// No voter has two live votes in the ledger.
    pub open spec fn wf(&self) -> bool {
        one_live_vote_each(self@)
    }

    /// Creates a ledger without votes.
    pub fn new() -> (ledger: VoteLedger)
        ensures
            ledger@ == Seq::<VoteLedgerEntryView>::empty(),
            ledger.wf(),
    {
        let ledger = VoteLedger { entries: Vec::new() };
        ledger
    }

    /// Position of the first live vote of `voter`, if the voter has one.
    pub fn find_live_vote(&self, voter: &VoterId) -> (found: Option<usize>)
        ensures
            match found {
                Some(i) => first_live_vote(self@, voter@, 0) == Some(i as int) && is_live_vote_of(
                    self@,
                    i as int,
                    voter@,
                ),
                None => first_live_vote(self@, voter@, 0) is None && !has_live_vote(self@, voter@),
            },
    {
        let mut i: usize = 0;
        while i < self.entries.len()
            invariant
                i <= self.entries.len(),
                self@.len() == self.entries.len(),
                first_live_vote(self@, voter@, 0) == first_live_vote(self@, voter@, i as int),
            decreases self.entries.len() - i,
        {
            if !self.entries[i].is_relinquished && self.entries[i].voter.same_as(voter) {
                return Some(i);
            }
            i += 1;
        }
        proof {
            lemma_first_live_vote(self@, voter@, 0);
        }
        None
    }
}

/// Sum of the percentages of the first `n` choices.
pub open spec fn choices_total(choices: Seq<VoteChoice>, n: int) -> nat
    decreases n,
{
    if n <= 0 {
        0
    } else {
        choices_total(choices, n - 1) + choices[n - 1].weight_percentage as nat
    }
}

/// Number of those among the first `n` choices that give any weight.
pub open spec fn choices_nonzero(choices: Seq<VoteChoice>, n: int) -> nat
    decreases n,
{
    if n <= 0 {
        0
    } else {
        choices_nonzero(choices, n - 1) + if choices[n - 1].weight_percentage > 0 {
            1nat
        } else {
            0nat
        }
    }
}

impl VoteView {
    /// Every choice names one of the first `options` options.
    pub open spec fn names_options(self, options: nat) -> bool {
        match self {
            VoteView::Approve(choices) => forall|i: int|
                0 <= i < choices.len() ==> (#[trigger] choices[i]).option_index < options,
            VoteView::Deny => true,
        }
    }

    /// No percentage is above 100, all of them together are at most 100, and
    /// no more choices give weight than the vote type allows a voter options.
    pub open spec fn weights_valid(self, vote_type: VoteType) -> bool {
        match self {
            VoteView::Approve(choices) => {
                &&& forall|i: int|
                    0 <= i < choices.len() ==> (#[trigger] choices[i]).weight_percentage <= 100
                &&& choices_total(choices, choices.len() as int) <= 100
                &&& vote_type.allows_voter_options(choices_nonzero(choices, choices.len() as int))
            },
            VoteView::Deny => true,
        }
    }
}

/// The sum of the first percentages never exceeds that of more of them.
pub proof fn lemma_choices_total_monotonic(choices: Seq<VoteChoice>, m: int, n: int)
    requires
        m <= n,
    ensures
        choices_total(choices, m) <= choices_total(choices, n),
    decreases n - m,
{
    if m < n {
        lemma_choices_total_monotonic(choices, m, n - 1);
    }
}

} // verus!
