use spl_governance::capacity::process_insert_proposal_options;
use spl_governance::execution::{execute_transaction, insert_transaction};
use spl_governance::finalize::finalize_vote;
use spl_governance::proposal::Proposal;
use spl_governance::state::{OptionVoteResult, ProposalState, VoteType};
use spl_governance::vote::{Vote, VoteChoice, VoteLedger, VoteLedgerEntry, VoterId};
use spl_governance::voting::{cast_vote, relinquish_vote};

fn voter(id: u8) -> VoterId {
    VoterId::new([id; 32])
}

fn approve(option_index: usize, weight_percentage: u8) -> Vote {
    Vote::Approve(vec![VoteChoice {
        option_index,
        weight_percentage,
    }])
}

fn draft() -> Proposal {
    let mut proposal = Proposal::new(
        "Proposal".to_string(),
        "link".to_string(),
        VoteType::MultiWeightedChoice {
            max_winning_options: 1,
            max_voter_options: 2,
        },
        true,
        50,
        100,
        296 + 8 + 4 + 3 * 20,
    )
    .unwrap();
    process_insert_proposal_options(
        &mut proposal,
        vec!["a".to_string(), "b".to_string(), "c".to_string()],
    )
    .unwrap();
    proposal
}

fn holds(proposal: &Proposal, ledger: &VoteLedger) {
    assert!(proposal.is_well_formed());
    assert!(ledger.is_well_formed());
    assert!(ledger.belongs_to(proposal));
}

/// A proposal decided in favour of its first option, with two operations
/// attached to that option, and the ledger of its votes.
fn decided() -> (Proposal, VoteLedger) {
    let mut proposal = draft();
    let mut ledger = VoteLedger::new();
    insert_transaction(&mut proposal, 0, 0).unwrap();
    insert_transaction(&mut proposal, 0, 0).unwrap();
    proposal.sign_off_proposal(true, 100, 0).unwrap();
    cast_vote(&mut proposal, &mut ledger, voter(1), 60, approve(0, 100)).unwrap();
    cast_vote(&mut proposal, &mut ledger, voter(2), 30, Vote::Deny).unwrap();
    finalize_vote(&mut proposal, 100, false).unwrap();
    (proposal, ledger)
}

#[test]
fn test_invariants_hold_after_every_step() {
    let mut proposal = Proposal::new(
        "Proposal".to_string(),
        "link".to_string(),
        VoteType::MultiWeightedChoice {
            max_winning_options: 1,
            max_voter_options: 2,
        },
        true,
        50,
        100,
        1_000,
    )
    .unwrap();
    let mut ledger = VoteLedger::new();
    holds(&proposal, &ledger);

    process_insert_proposal_options(&mut proposal, vec!["a".to_string(), "b".to_string()])
        .unwrap();
    holds(&proposal, &ledger);
    let mut first = insert_transaction(&mut proposal, 1, 0).unwrap();
    let mut second = insert_transaction(&mut proposal, 1, 0).unwrap();
    holds(&proposal, &ledger);

    proposal.sign_off_proposal(false, 0, 0).unwrap();
    holds(&proposal, &ledger);
    proposal.sign_off_proposal(true, 100, 0).unwrap();
    holds(&proposal, &ledger);

    cast_vote(&mut proposal, &mut ledger, voter(1), 40, approve(0, 100)).unwrap();
    holds(&proposal, &ledger);
    cast_vote(
        &mut proposal,
        &mut ledger,
        voter(2),
        55,
        Vote::Approve(vec![
            VoteChoice {
                option_index: 1,
                weight_percentage: 99,
            },
            VoteChoice {
                option_index: 0,
                weight_percentage: 1,
            },
        ]),
    )
    .unwrap();
    holds(&proposal, &ledger);
    cast_vote(&mut proposal, &mut ledger, voter(3), 5, Vote::Deny).unwrap();
    holds(&proposal, &ledger);
    relinquish_vote(&mut proposal, &mut ledger, &voter(1)).unwrap();
    holds(&proposal, &ledger);
    cast_vote(&mut proposal, &mut ledger, voter(1), 40, approve(0, 50)).unwrap();
    holds(&proposal, &ledger);
    // refused requests keep them too
    assert!(cast_vote(&mut proposal, &mut ledger, voter(1), 1, Vote::Deny).is_err());
    assert!(finalize_vote(&mut proposal, 1, false).is_err());
    holds(&proposal, &ledger);

    finalize_vote(&mut proposal, 100, false).unwrap();
    assert_eq!(ProposalState::Succeeded, proposal.state);
    holds(&proposal, &ledger);
    relinquish_vote(&mut proposal, &mut ledger, &voter(3)).unwrap();
    holds(&proposal, &ledger);

    execute_transaction(&mut proposal, &mut first, 100, false).unwrap();
    assert_eq!(ProposalState::ExecutingWithErrors, proposal.state);
    holds(&proposal, &ledger);
    execute_transaction(&mut proposal, &mut second, 100, true).unwrap();
    assert_eq!(ProposalState::Completed, proposal.state);
    holds(&proposal, &ledger);
}

#[test]
fn test_invariants_hold_of_a_cancelled_proposal() {
    let mut proposal = draft();
    let mut ledger = VoteLedger::new();
    proposal.sign_off_proposal(true, 100, 0).unwrap();
    cast_vote(&mut proposal, &mut ledger, voter(1), 40, approve(0, 100)).unwrap();
    proposal.cancel_proposal().unwrap();
    holds(&proposal, &ledger);
}

#[test]
fn test_proposal_beyond_its_account_is_not_well_formed() {
    let mut proposal = draft();
    assert!(proposal.is_well_formed());
    proposal.account_size -= 1;
    assert!(!proposal.is_well_formed());
}

#[test]
fn test_draft_with_counted_weight_is_not_well_formed() {
    let mut proposal = draft();
    proposal.options[2].vote_weight = 1;
    assert!(!proposal.is_well_formed());

    let mut proposal = draft();
    proposal.deny_vote_weight = Some(1);
    assert!(!proposal.is_well_formed());

    let mut proposal = draft();
    proposal.deny_vote_weight = None;
    assert!(proposal.is_well_formed());
}

#[test]
fn test_undecided_proposal_with_results_is_not_well_formed() {
    for state in [
        ProposalState::Draft,
        ProposalState::SigningOff,
        ProposalState::Voting,
        ProposalState::Cancelled,
    ] {
        let mut proposal = draft();
        proposal.sign_off_proposal(true, 100, 0).unwrap();
        proposal.state = state;
        assert!(proposal.is_well_formed());
        proposal.options[1].vote_result = OptionVoteResult::Defeated;
        assert!(!proposal.is_well_formed());
    }
}

#[test]
fn test_voting_proposal_needs_its_start_and_its_weight() {
    let mut proposal = draft();
    proposal.sign_off_proposal(true, 100, 0).unwrap();
    assert!(proposal.is_well_formed());
    proposal.voting_at = None;
    assert!(!proposal.is_well_formed());
    proposal.voting_at = Some(0);
    proposal.max_vote_weight = None;
    assert!(!proposal.is_well_formed());
}

#[test]
fn test_counters_out_of_order_are_not_well_formed() {
    let (mut proposal, _) = decided();
    assert!(proposal.is_well_formed());
    proposal.options[0].transactions_next_index = 3;
    assert!(!proposal.is_well_formed());
    proposal.options[0].transactions_next_index = 0;
    proposal.options[0].transactions_executed_count = 1;
    assert!(!proposal.is_well_formed());
}

#[test]
fn test_results_other_than_the_tally_calls_for_are_not_well_formed() {
    let (mut proposal, _) = decided();
    assert_eq!(OptionVoteResult::Succeeded, proposal.options[0].vote_result);
    assert_eq!(OptionVoteResult::Defeated, proposal.options[1].vote_result);
    proposal.options[1].vote_result = OptionVoteResult::Succeeded;
    assert!(!proposal.is_well_formed());
    proposal.options[1].vote_result = OptionVoteResult::Pending;
    assert!(!proposal.is_well_formed());
    proposal.options[1].vote_result = OptionVoteResult::Defeated;
    // weights changed after the decision
    proposal.options[0].vote_weight = 1;
    assert!(!proposal.is_well_formed());
}

#[test]
fn test_state_must_agree_with_what_is_left_to_run() {
    let (proposal, _) = decided();
    assert_eq!(ProposalState::Succeeded, proposal.state);

    // operations are left: neither completed ...
    let mut tampered = proposal.clone();
    tampered.state = ProposalState::Completed;
    assert!(!tampered.is_well_formed());
    // ... nor defeated, with a winner
    tampered.state = ProposalState::Defeated;
    assert!(!tampered.is_well_formed());
    // executing it may be
    tampered.state = ProposalState::Executing;
    assert!(tampered.is_well_formed());
    tampered.state = ProposalState::ExecutingWithErrors;
    assert!(tampered.is_well_formed());

    // nothing is left: not executing
    tampered.options[0].transactions_next_index = 2;
    tampered.options[0].transactions_executed_count = 2;
    assert!(!tampered.is_well_formed());
    tampered.state = ProposalState::Completed;
    assert!(tampered.is_well_formed());

    // decided without the time of the decision
    let mut tampered = proposal.clone();
    tampered.voting_completed_at = None;
    assert!(!tampered.is_well_formed());
}

#[test]
fn test_ledger_with_two_live_votes_of_a_voter_is_not_well_formed() {
    let entry = |id: u8, is_relinquished: bool| VoteLedgerEntry {
        voter: voter(id),
        voter_weight: 1,
        vote: Vote::Deny,
        is_relinquished,
    };
    let ledger = |entries: Vec<VoteLedgerEntry>| VoteLedger { entries };

    assert!(ledger(vec![]).is_well_formed());
    assert!(ledger(vec![entry(1, false), entry(2, false), entry(3, false)]).is_well_formed());
    assert!(ledger(vec![entry(1, true), entry(1, true), entry(1, false)]).is_well_formed());
    assert!(!ledger(vec![entry(1, false), entry(2, false), entry(1, false)]).is_well_formed());
    assert!(!ledger(vec![entry(2, false), entry(1, false), entry(1, false)]).is_well_formed());
    assert!(!ledger(vec![entry(1, false), entry(1, true), entry(1, false)]).is_well_formed());
}

#[test]
fn test_ledger_must_amount_to_the_tally_while_voting() {
    let mut proposal = draft();
    let mut ledger = VoteLedger::new();
    proposal.sign_off_proposal(true, 100, 0).unwrap();
    cast_vote(&mut proposal, &mut ledger, voter(1), 40, approve(0, 100)).unwrap();
    cast_vote(&mut proposal, &mut ledger, voter(2), 7, Vote::Deny).unwrap();
    assert!(ledger.belongs_to(&proposal));

    let mut tampered = proposal.clone();
    tampered.options[0].vote_weight = 41;
    assert!(!ledger.belongs_to(&tampered));
    let mut tampered = proposal.clone();
    tampered.options[1].vote_weight = 1;
    assert!(!ledger.belongs_to(&tampered));
    let mut tampered = proposal.clone();
    tampered.deny_vote_weight = Some(8);
    assert!(!ledger.belongs_to(&tampered));

    // a withdrawn vote does not count
    let mut withdrawn = ledger.clone();
    withdrawn.entries[0].is_relinquished = true;
    assert!(!withdrawn.belongs_to(&proposal));
    // every vote counts
    assert!(!VoteLedger::new().belongs_to(&proposal));

    // once the vote has ended the tally is frozen and the ledger is a record
    let mut ended = proposal.clone();
    finalize_vote(&mut ended, 100, false).unwrap();
    assert!(withdrawn.belongs_to(&ended));
    assert!(ledger.belongs_to(&ended));
}

#[test]
fn test_ledger_of_a_draft_is_empty() {
    let proposal = draft();
    assert!(VoteLedger::new().belongs_to(&proposal));
    let ledger = VoteLedger {
        entries: vec![VoteLedgerEntry {
            voter: voter(1),
            voter_weight: 0,
            vote: approve(0, 0),
            is_relinquished: true,
        }],
    };
    assert!(!ledger.belongs_to(&proposal));
}

#[test]
fn test_ledger_holds_only_votes_that_the_proposal_accepts() {
    let mut proposal = draft();
    proposal.sign_off_proposal(true, 100, 0).unwrap();
    let ledger = |vote: Vote| VoteLedger {
        entries: vec![VoteLedgerEntry {
            voter: voter(1),
            voter_weight: 0,
            vote,
            is_relinquished: true,
        }],
    };
    assert!(ledger(approve(2, 100)).belongs_to(&proposal));
    assert!(!ledger(approve(3, 100)).belongs_to(&proposal));
    assert!(!ledger(approve(0, 101)).belongs_to(&proposal));
    assert!(ledger(Vote::Deny).belongs_to(&proposal));
    proposal.deny_vote_weight = None;
    assert!(!ledger(Vote::Deny).belongs_to(&proposal));
}

#[test]
fn test_recount_beyond_the_range_of_a_weight_is_no_match() {
    let mut proposal = draft();
    proposal.sign_off_proposal(true, 100, 0).unwrap();
    let entry = |id: u8, vote: Vote| VoteLedgerEntry {
        voter: voter(id),
        voter_weight: u64::MAX,
        vote,
        is_relinquished: false,
    };
    proposal.options[0].vote_weight = u64::MAX;
    let ledger = VoteLedger {
        entries: vec![entry(1, approve(0, 100)), entry(2, approve(0, 100))],
    };
    assert!(!ledger.belongs_to(&proposal));
    proposal.options[0].vote_weight = 0;
    proposal.deny_vote_weight = Some(u64::MAX);
    let ledger = VoteLedger {
        entries: vec![entry(1, Vote::Deny), entry(2, Vote::Deny)],
    };
    assert!(!ledger.belongs_to(&proposal));
    let ledger = VoteLedger {
        entries: vec![entry(1, Vote::Deny)],
    };
    assert!(ledger.belongs_to(&proposal));
}
