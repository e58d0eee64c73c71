//! Proposals, their options, and the accounting of the storage they occupy.

use vstd::prelude::*;
use vstd::utf8::encode_utf8;
use crate::error::{GovernanceError, GovernanceToolsError};
use crate::execution::nothing_pending;
use crate::state::{OptionVoteResult, ProposalState, VoteType};

verus! {

/// Bytes that a proposal occupies apart from its name, its description link and its options.
pub const PROPOSAL_BASE_SIZE: usize = 296;

/// Bytes that an option occupies apart from its label.
pub const OPTION_BASE_SIZE: usize = 19;

/// Number of bytes that a text occupies.
pub open spec fn text_size(text: Seq<char>) -> nat {
    encode_utf8(text).len()
}

/// Footprint of an option with the given label.
pub open spec fn option_size(label: Seq<char>) -> nat {
    OPTION_BASE_SIZE as nat + text_size(label)
}

/// Mathematical model of a [`ProposalOption`].
pub struct ProposalOptionView {
    pub label: Seq<char>,
    pub vote_weight: nat,
    pub vote_result: OptionVoteResult,
    pub transactions_executed_count: nat,
    pub transactions_count: nat,
    pub transactions_next_index: nat,
}

impl ProposalOptionView {
    /// The option as it is when inserted: no votes, no result, no operations.
    pub open spec fn fresh(label: Seq<char>) -> ProposalOptionView {
        ProposalOptionView {
            label,
            vote_weight: 0,
            vote_result: OptionVoteResult::Pending,
            transactions_executed_count: 0,
            transactions_count: 0,
            transactions_next_index: 0,
        }
    }

    /// Footprint of the option.
    pub open spec fn size(self) -> nat {
        option_size(self.label)
    }

    /// No more operations have run than the option has moved past, and it
    /// has moved past no more than are attached.
    pub open spec fn counters_ordered(self) -> bool {
        self.transactions_executed_count <= self.transactions_next_index
            <= self.transactions_count
    }

    /// Nothing has been voted, decided or run.
    pub open spec fn is_untouched(self) -> bool {
        &&& self.vote_weight == 0
        &&& self.vote_result == OptionVoteResult::Pending
        &&& self.transactions_next_index == 0
        &&& self.transactions_executed_count == 0
    }
}

/// One selectable outcome of a proposal.
#[derive(Clone, Debug, PartialEq, Eq)]
pub struct ProposalOption {
    /// Free-form text.
    pub label: String,
    /// Weight of the approving votes given to the option.
    pub vote_weight: u64,
    /// Outcome of the vote for the option.
    pub vote_result: OptionVoteResult,
    /// Attached operations that have run.
    pub transactions_executed_count: u16,
    /// Attached operations.
    pub transactions_count: u16,
    /// Index of the next attached operation to run.
    pub transactions_next_index: u16,
}

impl View for ProposalOption {
    type V = ProposalOptionView;

    open spec fn view(&self) -> ProposalOptionView {
        ProposalOptionView {
            label: self.label@,
            vote_weight: self.vote_weight as nat,
            vote_result: self.vote_result,
            transactions_executed_count: self.transactions_executed_count as nat,
            transactions_count: self.transactions_count as nat,
            transactions_next_index: self.transactions_next_index as nat,
        }
    }
}

/// Number of bytes of a text, as the machine counts them.
fn byte_length(text: &String) -> (length: usize)
    ensures
        length == text_size(text@),
{
    text.as_str().as_bytes().len()
}

impl ProposalOption {
    /// Creates the option that is inserted for `label`.
    pub fn new(label: String) -> (option: ProposalOption)
        ensures
            option@ == ProposalOptionView::fresh(label@),
    {
        ProposalOption {
            label,
            vote_weight: 0,
            vote_result: OptionVoteResult::Pending,
            transactions_executed_count: 0,
            transactions_count: 0,
            transactions_next_index: 0,
        }
    }

    /// Footprint of the option; `None` where it does not fit a `usize`.
    pub fn get_max_size(&self) -> (size: Option<usize>)
        ensures
            match size {
                Some(n) => n == self@.size(),
                None => self@.size() > usize::MAX,
            },
    {
        byte_length(&self.label).checked_add(OPTION_BASE_SIZE)
    }
}

/// Footprint of the first `n` of the given options.
pub open spec fn options_size(options: Seq<ProposalOptionView>, n: int) -> nat
    decreases n,
{
    if n <= 0 {
        0
    } else {
        options_size(options, n - 1) + options[n - 1].size()
    }
}

/// A weight as a natural number, where there is one.
pub open spec fn weight_view(weight: Option<u64>) -> Option<nat> {
    match weight {
        Some(w) => Some(w as nat),
        None => None,
    }
}

/// A point in time as an integer, where there is one.
pub open spec fn time_view(time: Option<i64>) -> Option<int> {
    match time {
        Some(t) => Some(t as int),
        None => None,
    }
}

/// The models of the given options, in order.
pub open spec fn option_views(options: Seq<ProposalOption>) -> Seq<ProposalOptionView> {
    Seq::new(options.len(), |i: int| options[i]@)
}

/// Mathematical model of a [`Proposal`].
pub struct ProposalView {
    pub name: Seq<char>,
    pub description_link: Seq<char>,
    pub state: ProposalState,
    pub vote_type: VoteType,
    pub options: Seq<ProposalOptionView>,
    pub deny_vote_weight: Option<nat>,
    pub max_vote_weight: Option<nat>,
    pub vote_threshold_percentage: nat,
    pub max_voting_time: nat,
    pub voting_at: Option<int>,
    pub voting_completed_at: Option<int>,
    pub account_size: nat,
}

impl ProposalView {
    /// The proposal as it is when created: a draft without options.
    pub open spec fn draft(
        name: Seq<char>,
        description_link: Seq<char>,
        vote_type: VoteType,
        use_deny_option: bool,
        vote_threshold_percentage: nat,
        max_voting_time: nat,
        account_size: nat,
    ) -> ProposalView {
        ProposalView {
            name,
            description_link,
            state: ProposalState::Draft,
            vote_type,
            options: Seq::empty(),
            deny_vote_weight: if use_deny_option {
                Some(0nat)
            } else {
                None
            },
            max_vote_weight: None,
            vote_threshold_percentage,
            max_voting_time,
            voting_at: None,
            voting_completed_at: None,
            account_size,
        }
    }

    /// Footprint of the proposal without its options.
    pub open spec fn base_size(self) -> nat {
        PROPOSAL_BASE_SIZE as nat + text_size(self.name) + text_size(self.description_link)
    }

    /// Accounted size of the proposal: its base and the footprint of every option.
    pub open spec fn size(self) -> nat {
        self.base_size() + options_size(self.options, self.options.len() as int)
    }

    /// No approving and no denying weight has been counted.
    pub open spec fn nothing_counted(self) -> bool {
        &&& forall|i: int| 0 <= i < self.options.len() ==> (#[trigger] self.options[i]).vote_weight == 0
        &&& self.deny_vote_weight matches Some(weight) ==> weight == 0
    }

    /// No option has a result, and no attached operation has been attempted.
    pub open spec fn nothing_decided(self) -> bool {
        forall|i: int|
            0 <= i < self.options.len() ==> {
                &&& (#[trigger] self.options[i]).vote_result == OptionVoteResult::Pending
                &&& self.options[i].transactions_next_index == 0
                &&& self.options[i].transactions_executed_count == 0
            }
    }

    /// Every option has the result that the proposal's tally calls for.
    pub open spec fn results_follow_tally(self) -> bool {
        forall|i: int|
            0 <= i < self.options.len() ==> (#[trigger] self.options[i]).vote_result
                == self.result_of(i)
    }

    /// Every option has lost.
    pub open spec fn everything_defeated(self) -> bool {
        forall|i: int|
            0 <= i < self.options.len() ==> (#[trigger] self.options[i]).vote_result
                == OptionVoteResult::Defeated
    }

    /// The proposal after a sign-off: voting starts at `now`, with
    /// `max_vote_weight` as all the weight that may vote, where every required
    /// co-signer has signed; else the proposal waits for the others.
    pub open spec fn signed_off(
        self,
        signatories_complete: bool,
        max_vote_weight: nat,
        now: int,
    ) -> ProposalView {
        if signatories_complete {
            ProposalView {
                state: ProposalState::Voting,
                voting_at: Some(now),
                max_vote_weight: Some(max_vote_weight),
                ..self
            }
        } else {
            ProposalView { state: ProposalState::SigningOff, ..self }
        }
    }

    /// The proposal after its owner has cancelled it.
    pub open spec fn cancelled(self) -> ProposalView {
        ProposalView { state: ProposalState::Cancelled, ..self }
    }

    /// What holds of a proposal in every state that the operations of this
    /// crate can lead to:
    ///
    /// - the proposal fits the storage reserved for it;
    /// - no option has moved past more operations than are attached, nor
    ///   run more than it has moved past;
    /// - until voting starts nothing is counted, and until the vote is
    ///   finalised nothing is decided or run;
    /// - from then on the time of the decision is known and every option has
    ///   the result that the tally calls for;
    /// - a defeated proposal has no winning option, a completed one no
    ///   operation left to run, and one that is executing has some left.
    pub open spec fn wf(self) -> bool {
        &&& self.size() <= self.account_size
        &&& forall|i: int|
            0 <= i < self.options.len() ==> (#[trigger] self.options[i]).counters_ordered()
        &&& self.state.is_editable() ==> self.nothing_counted() && self.nothing_decided()
        &&& self.state == ProposalState::Voting ==> self.nothing_decided()
            && self.voting_at is Some && self.max_vote_weight is Some
        &&& self.state == ProposalState::Cancelled ==> self.nothing_decided()
        &&& self.state.is_finalized() ==> self.results_follow_tally()
            && self.voting_completed_at is Some && self.max_vote_weight is Some
        &&& self.state == ProposalState::Defeated ==> self.everything_defeated()
        &&& self.state == ProposalState::Completed ==> nothing_pending(self.options)
        &&& self.state == ProposalState::Executing || self.state
            == ProposalState::ExecutingWithErrors ==> !nothing_pending(self.options)
    }
}

/// A unit of decision: options to choose from, the tallies, and the state of the decision.
#[derive(Clone, Debug, PartialEq, Eq)]
pub struct Proposal {
    /// Title of the proposal.
    pub name: String,
    /// Where the proposal is described.
    pub description_link: String,
    /// Lifecycle state.
    pub state: ProposalState,
    /// How voters choose and how many options may win.
    pub vote_type: VoteType,
    /// The options, in the order of their insertion.
    pub options: Vec<ProposalOption>,
    /// Weight of the votes that rejected every option; `None` where the
    /// proposal has no pool for them.
    pub deny_vote_weight: Option<u64>,
    /// All the weight that may vote, taken when voting starts.
    pub max_vote_weight: Option<u64>,
    /// Share of `max_vote_weight`, in percent, that an option needs to win.
    pub vote_threshold_percentage: u8,
    /// Length of the voting period, in seconds.
    pub max_voting_time: u32,
    /// When voting started.
    pub voting_at: Option<i64>,
    /// When the vote was finalised.
    pub voting_completed_at: Option<i64>,
    /// Bytes reserved for the proposal's record.
    pub account_size: usize,
}

impl View for Proposal {
    type V = ProposalView;

    open spec fn view(&self) -> ProposalView {
        ProposalView {
            name: self.name@,
            description_link: self.description_link@,
            state: self.state,
            vote_type: self.vote_type,
            options: option_views(self.options@),
            deny_vote_weight: weight_view(self.deny_vote_weight),
            max_vote_weight: weight_view(self.max_vote_weight),
            vote_threshold_percentage: self.vote_threshold_percentage as nat,
            max_voting_time: self.max_voting_time as nat,
            voting_at: time_view(self.voting_at),
            voting_completed_at: time_view(self.voting_completed_at),
            account_size: self.account_size as nat,
        }
    }
}

/// The footprint of a prefix of the options never exceeds that of a longer one.
pub proof fn lemma_options_size_monotonic(options: Seq<ProposalOptionView>, m: int, n: int)
    requires
        m <= n,
    ensures
        options_size(options, m) <= options_size(options, n),
    decreases n - m,
{
    if m < n {
        lemma_options_size_monotonic(options, m, n - 1);
    }
}

/// The footprint of options depends on their labels alone.
pub proof fn lemma_options_size_by_label(
    a: Seq<ProposalOptionView>,
    b: Seq<ProposalOptionView>,
    n: int,
)
    requires
        0 <= n <= a.len(),
        n <= b.len(),
        forall|i: int| 0 <= i < n ==> a[i].label == b[i].label,
    ensures
        options_size(a, n) == options_size(b, n),
    decreases n,
{
    if n > 0 {
        lemma_options_size_by_label(a, b, n - 1);
    }
}

impl Proposal {
    /// The invariant of the model holds of this proposal.
    pub open spec fn wf(&self) -> bool {
        self@.wf()
    }

    /// Creates a draft without options, in a record of `account_size` bytes.
    ///
    /// Fails where the record is too small for the draft itself.
    pub fn new(
        name: String,
        description_link: String,
        vote_type: VoteType,
        use_deny_option: bool,
        vote_threshold_percentage: u8,
        max_voting_time: u32,
        account_size: usize,
    ) -> (created: Result<Proposal, GovernanceToolsError>)
        ensures
            match created {
                Ok(proposal) => {
                    &&& proposal@ == ProposalView::draft(
                        name@,
                        description_link@,
                        vote_type,
                        use_deny_option,
                        vote_threshold_percentage as nat,
                        max_voting_time as nat,
                        account_size as nat,
                    )
                    &&& proposal.wf()
                },
                Err(error) => {
                    &&& error == GovernanceToolsError::CreateAccountPrefetchSpaceExceeded
                    &&& PROPOSAL_BASE_SIZE + text_size(name@) + text_size(description_link@)
                        > account_size
                },
            },
    {
        let needed: u128 = PROPOSAL_BASE_SIZE as u128 + byte_length(&name) as u128 + byte_length(
            &description_link,
        ) as u128;
        if needed > account_size as u128 {
            return Err(GovernanceToolsError::CreateAccountPrefetchSpaceExceeded);
        }
        let proposal = Proposal {
            name,
            description_link,
            state: ProposalState::Draft,
            vote_type,
            options: Vec::new(),
            deny_vote_weight: if use_deny_option {
                Some(0)
            } else {
                None
            },
            max_vote_weight: None,
            vote_threshold_percentage,
            max_voting_time,
            voting_at: None,
            voting_completed_at: None,
            account_size,
        };
        assert(proposal@.options =~= Seq::empty());
        Ok(proposal)
    }

    /// Checks that options may be inserted: only while the proposal is
    /// being drafted or signed off.
    pub fn assert_can_insert_proposal_options(&self) -> (result: Result<(), GovernanceError>)
        ensures
            result == if self@.state.is_editable() {
                Ok::<(), GovernanceError>(())
            } else {
                Err::<(), GovernanceError>(GovernanceError::InvalidStateCannotEdit)
            },
    {
        match self.state {
            ProposalState::Draft | ProposalState::SigningOff => Ok(()),
            _ => Err(GovernanceError::InvalidStateCannotEdit),
        }
    }

    /// Records a sign-off on a proposal that is being drafted or signed off.
    ///
    /// Where `signatories_complete` says that every required co-signer has
    /// signed, voting starts: `now` becomes the start of the voting period
    /// and `max_vote_weight` all the weight that may vote. Else the proposal
    /// waits for the other co-signers. In any other state the sign-off is
    /// refused and changes nothing.
    pub fn sign_off_proposal(
        &mut self,
        signatories_complete: bool,
        max_vote_weight: u64,
        now: i64,
    ) -> (result: Result<(), GovernanceError>)
        ensures
            match result {
                Ok(()) => {
                    &&& old(self)@.state.is_editable()
                    &&& final(self)@ == old(self)@.signed_off(
                        signatories_complete,
                        max_vote_weight as nat,
                        now as int,
                    )
                },
                Err(error) => {
                    &&& error == GovernanceError::InvalidStateCannotSignOff
                    &&& !old(self)@.state.is_editable()
                    &&& *final(self) == *old(self)
                },
            },
            old(self)@.state.may_become(final(self)@.state),
            old(self).wf() ==> final(self).wf(),
    {
        match self.state {
            ProposalState::Draft | ProposalState::SigningOff => {},
            _ => {
                return Err(GovernanceError::InvalidStateCannotSignOff);
            },
        }
        if signatories_complete {
            self.state = ProposalState::Voting;
            self.voting_at = Some(now);
            self.max_vote_weight = Some(max_vote_weight);
        } else {
            self.state = ProposalState::SigningOff;
        }
        Ok(())
    }

    /// Cancels a proposal that has not been decided: one that is being
    /// drafted, signed off or voted on. In any other state the request is
    /// refused and changes nothing.
    pub fn cancel_proposal(&mut self) -> (result: Result<(), GovernanceError>)
        ensures
            match result {
                Ok(()) => {
                    &&& old(self)@.state.is_cancellable()
                    &&& final(self)@ == old(self)@.cancelled()
                },
                Err(error) => {
                    &&& error == GovernanceError::InvalidStateCannotCancelProposal
                    &&& !old(self)@.state.is_cancellable()
                    &&& *final(self) == *old(self)
                },
            },
            old(self)@.state.may_become(final(self)@.state),
            old(self).wf() ==> final(self).wf(),
    {
        match self.state {
            ProposalState::Draft | ProposalState::SigningOff | ProposalState::Voting => {
                self.state = ProposalState::Cancelled;
                Ok(())
            },
            _ => Err(GovernanceError::InvalidStateCannotCancelProposal),
        }
    }

    /// Accounted size of the proposal, computed anew from its parts; `None`
    /// where it does not fit a `usize`.
    pub fn get_max_size(&self) -> (size: Option<usize>)
        ensures
            match size {
                Some(n) => n == self@.size(),
                None => self@.size() > usize::MAX,
            },
    {
        let ghost views = self@.options;
        let mut total: usize = PROPOSAL_BASE_SIZE;
        match total.checked_add(byte_length(&self.name)) {
            Some(sum) => {
                total = sum;
            },
            None => {
                return None;
            },
        }
        match total.checked_add(byte_length(&self.description_link)) {
            Some(sum) => {
                total = sum;
            },
            None => {
                return None;
            },
        }
        let mut i: usize = 0;
        while i < self.options.len()
            invariant
                i <= self.options.len(),
                views == self@.options,
                total == self@.base_size() + options_size(views, i as int),
            decreases self.options.len() - i,
        {
            let next = match self.options[i].get_max_size() {
                Some(option_size) => total.checked_add(option_size),
                None => None,
            };
            match next {
                Some(sum) => {
                    total = sum;
                },
                None => {
                    proof {
                        lemma_options_size_monotonic(views, i + 1, views.len() as int);
                    }
                    return None;
                },
            }
            i += 1;
        }
        Some(total)
    }
}

} // verus!
