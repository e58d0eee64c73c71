use spl_governance::capacity::process_insert_proposal_options;
use spl_governance::error::GovernanceError;
use spl_governance::finalize::finalize_vote;
use spl_governance::proposal::Proposal;
use spl_governance::state::{ProposalState, VoteType};
use spl_governance::tally::weight_share;
use spl_governance::voting::{cast_vote, relinquish_vote, validate_vote};
use spl_governance::vote::{Vote, VoteChoice, VoteLedger, VoteLedgerEntry, VoterId};

fn voter(id: u8) -> VoterId {
    VoterId::new([id; 32])
}

fn choice(option_index: usize, weight_percentage: u8) -> VoteChoice {
    VoteChoice {
        option_index,
        weight_percentage,
    }
}

fn draft(vote_type: VoteType, use_deny_option: bool, options: usize) -> Proposal {
    let mut proposal = Proposal::new(
        "Proposal".to_string(),
        "link".to_string(),
        vote_type,
        use_deny_option,
        50,
        100,
        100_000,
    )
    .unwrap();
    let labels = (0..options).map(|i| format!("option {}", i)).collect();
    process_insert_proposal_options(&mut proposal, labels).unwrap();
    proposal
}

fn voting(vote_type: VoteType, use_deny_option: bool, options: usize) -> Proposal {
    let mut proposal = draft(vote_type, use_deny_option, options);
    proposal.sign_off_proposal(true, 1_000, 0).unwrap();
    proposal
}

fn weighted(max_voter_options: u8) -> VoteType {
    VoteType::MultiWeightedChoice {
        max_winning_options: 4,
        max_voter_options,
    }
}

fn weights(proposal: &Proposal) -> Vec<u64> {
    proposal.options.iter().map(|o| o.vote_weight).collect()
}

#[test]
fn test_weight_share_rounds_down() {
    assert_eq!(30, weight_share(100, 30));
    assert_eq!(49, weight_share(99, 50));
    assert_eq!(0, weight_share(99, 1));
    assert_eq!(0, weight_share(1, 99));
    assert_eq!(1, weight_share(1, 100));
    assert_eq!(33, weight_share(101, 33));
    assert_eq!(0, weight_share(0, 100));
    assert_eq!(0, weight_share(u64::MAX, 0));
    assert_eq!(u64::MAX as u128, weight_share(u64::MAX, 100));
    assert_eq!(u64::MAX as u128 * 255 / 100, weight_share(u64::MAX, 255));
}

#[test]
fn test_cast_approve_adds_shares_to_options() {
    let mut proposal = voting(weighted(3), true, 3);
    let mut ledger = VoteLedger::new();

    cast_vote(
        &mut proposal,
        &mut ledger,
        voter(1),
        99,
        Vote::Approve(vec![choice(0, 50), choice(2, 25)]),
    )
    .unwrap();

    // 99 * 50 / 100 = 49, 99 * 25 / 100 = 24: both rounded down
    assert_eq!(vec![49, 0, 24], weights(&proposal));
    assert_eq!(Some(0), proposal.deny_vote_weight);
    assert_eq!(
        ledger.entries,
        vec![VoteLedgerEntry {
            voter: voter(1),
            voter_weight: 99,
            vote: Vote::Approve(vec![choice(0, 50), choice(2, 25)]),
            is_relinquished: false,
        }]
    );
}

#[test]
fn test_cast_deny_adds_full_weight_to_deny_pool() {
    let mut proposal = voting(weighted(3), true, 3);
    let mut ledger = VoteLedger::new();

    cast_vote(&mut proposal, &mut ledger, voter(1), 70, Vote::Deny).unwrap();
    cast_vote(&mut proposal, &mut ledger, voter(2), 5, Vote::Deny).unwrap();

    assert_eq!(Some(75), proposal.deny_vote_weight);
    assert_eq!(vec![0, 0, 0], weights(&proposal));
    assert_eq!(2, ledger.entries.len());
}

#[test]
fn test_cast_choices_for_the_same_option_are_each_rounded() {
    let mut proposal = voting(weighted(4), false, 2);
    let mut ledger = VoteLedger::new();

    cast_vote(
        &mut proposal,
        &mut ledger,
        voter(1),
        10,
        Vote::Approve(vec![choice(1, 15), choice(1, 15)]),
    )
    .unwrap();

    // 10 * 15 / 100 = 1, twice
    assert_eq!(vec![0, 2], weights(&proposal));
}

#[test]
fn test_tally_is_independent_of_vote_order() {
    let votes = || {
        vec![
            (voter(1), 100, Vote::Approve(vec![choice(0, 33), choice(1, 67)])),
            (voter(2), 77, Vote::Deny),
            (voter(3), 59, Vote::Approve(vec![choice(2, 100)])),
            (voter(4), 3, Vote::Approve(vec![choice(1, 50), choice(0, 50)])),
        ]
    };
    let orders: [[usize; 4]; 4] = [[0, 1, 2, 3], [3, 2, 1, 0], [2, 0, 3, 1], [1, 3, 0, 2]];

    let mut tallies = vec![];
    for order in orders {
        let mut proposal = voting(weighted(3), true, 3);
        let mut ledger = VoteLedger::new();
        for index in order {
            let (voter, weight, vote) = votes().swap_remove(index);
            cast_vote(&mut proposal, &mut ledger, voter, weight, vote).unwrap();
        }
        tallies.push((weights(&proposal), proposal.deny_vote_weight));
    }

    // 100*33/100 + 3*50/100 = 33 + 1; 100*67/100 + 3*50/100 = 67 + 1; 59
    assert_eq!((vec![34, 68, 59], Some(77)), tallies[0]);
    assert_eq!(tallies[0], tallies[1]);
    assert_eq!(tallies[0], tallies[2]);
    assert_eq!(tallies[0], tallies[3]);
}

#[test]
fn test_relinquish_returns_tally_to_pre_vote_values() {
    let mut proposal = voting(weighted(3), true, 3);
    let mut ledger = VoteLedger::new();
    cast_vote(
        &mut proposal,
        &mut ledger,
        voter(1),
        41,
        Vote::Approve(vec![choice(0, 10), choice(1, 90)]),
    )
    .unwrap();
    cast_vote(&mut proposal, &mut ledger, voter(2), 9, Vote::Deny).unwrap();
    let before = proposal.clone();
    assert_eq!(vec![4, 36, 0], weights(&before));

    cast_vote(
        &mut proposal,
        &mut ledger,
        voter(3),
        1_000,
        Vote::Approve(vec![choice(1, 33), choice(2, 66)]),
    )
    .unwrap();
    assert_eq!(vec![4, 366, 660], weights(&proposal));
    relinquish_vote(&mut proposal, &mut ledger, &voter(3)).unwrap();

    assert_eq!(before, proposal);
    assert!(ledger.entries[2].is_relinquished);
    assert!(!ledger.entries[0].is_relinquished);

    cast_vote(&mut proposal, &mut ledger, voter(4), 50, Vote::Deny).unwrap();
    assert_eq!(Some(59), proposal.deny_vote_weight);
    relinquish_vote(&mut proposal, &mut ledger, &voter(4)).unwrap();
    assert_eq!(before, proposal);
}

#[test]
fn test_relinquish_subtracts_only_the_voters_own_vote() {
    let mut proposal = voting(weighted(3), true, 2);
    let mut ledger = VoteLedger::new();
    cast_vote(
        &mut proposal,
        &mut ledger,
        voter(1),
        100,
        Vote::Approve(vec![choice(0, 100)]),
    )
    .unwrap();
    cast_vote(
        &mut proposal,
        &mut ledger,
        voter(2),
        30,
        Vote::Approve(vec![choice(0, 50), choice(1, 50)]),
    )
    .unwrap();
    assert_eq!(vec![115, 15], weights(&proposal));

    relinquish_vote(&mut proposal, &mut ledger, &voter(1)).unwrap();

    assert_eq!(vec![15, 15], weights(&proposal));
    assert!(ledger.entries[0].is_relinquished);
    assert!(!ledger.entries[1].is_relinquished);
    assert_eq!(None, ledger.find_live_vote(&voter(1)));
    assert_eq!(Some(1), ledger.find_live_vote(&voter(2)));
}

#[test]
fn test_voter_may_vote_again_after_relinquishing() {
    let mut proposal = voting(weighted(3), true, 2);
    let mut ledger = VoteLedger::new();
    cast_vote(&mut proposal, &mut ledger, voter(1), 10, Vote::Deny).unwrap();
    relinquish_vote(&mut proposal, &mut ledger, &voter(1)).unwrap();
    cast_vote(
        &mut proposal,
        &mut ledger,
        voter(1),
        10,
        Vote::Approve(vec![choice(1, 100)]),
    )
    .unwrap();

    assert_eq!(Some(0), proposal.deny_vote_weight);
    assert_eq!(vec![0, 10], weights(&proposal));
    assert_eq!(2, ledger.entries.len());
    assert_eq!(Some(1), ledger.find_live_vote(&voter(1)));
}

#[test]
fn test_duplicate_vote_is_refused() {
    let mut proposal = voting(weighted(3), true, 2);
    let mut ledger = VoteLedger::new();
    cast_vote(&mut proposal, &mut ledger, voter(1), 10, Vote::Deny).unwrap();
    let (proposal_before, ledger_before) = (proposal.clone(), ledger.clone());

    let err = cast_vote(
        &mut proposal,
        &mut ledger,
        voter(1),
        10,
        Vote::Approve(vec![choice(0, 100)]),
    )
    .err()
    .unwrap();

    assert_eq!(GovernanceError::DuplicateVote, err);
    assert_eq!(proposal_before, proposal);
    assert_eq!(ledger_before, ledger);
}

#[test]
fn test_vote_is_refused_outside_voting() {
    for state in [
        ProposalState::Draft,
        ProposalState::SigningOff,
        ProposalState::Succeeded,
        ProposalState::Executing,
        ProposalState::Completed,
        ProposalState::Cancelled,
        ProposalState::Defeated,
        ProposalState::ExecutingWithErrors,
    ] {
        let mut proposal = voting(weighted(3), true, 2);
        proposal.state = state;
        let mut ledger = VoteLedger::new();
        let before = proposal.clone();
        assert_eq!(
            Err(GovernanceError::InvalidStateCannotVote),
            cast_vote(&mut proposal, &mut ledger, voter(1), 10, Vote::Deny)
        );
        assert_eq!(before, proposal);
        assert!(ledger.entries.is_empty());
    }
}

#[test]
fn test_deny_vote_needs_a_deny_pool() {
    let mut proposal = voting(weighted(3), false, 2);
    let mut ledger = VoteLedger::new();
    assert_eq!(
        Err(GovernanceError::DenyVoteIsNotAllowed),
        cast_vote(&mut proposal, &mut ledger, voter(1), 10, Vote::Deny)
    );
    assert_eq!(None, proposal.deny_vote_weight);
    assert!(ledger.entries.is_empty());
}

#[test]
fn test_vote_for_missing_option_is_refused() {
    let mut proposal = voting(weighted(3), true, 2);
    let mut ledger = VoteLedger::new();
    assert_eq!(
        Err(GovernanceError::InvalidOptionIndex),
        cast_vote(
            &mut proposal,
            &mut ledger,
            voter(1),
            10,
            Vote::Approve(vec![choice(0, 10), choice(2, 10)]),
        )
    );
    assert_eq!(vec![0, 0], weights(&proposal));
    assert!(ledger.entries.is_empty());
}

#[test]
fn test_invalid_vote_weights_are_refused() {
    let proposal = voting(weighted(2), true, 4);

    // a percentage above 100
    assert_eq!(
        Err(GovernanceError::InvalidVoteWeights),
        validate_vote(&proposal, &Vote::Approve(vec![choice(0, 101)]))
    );
    // more than 100 in sum
    assert_eq!(
        Err(GovernanceError::InvalidVoteWeights),
        validate_vote(&proposal, &Vote::Approve(vec![choice(0, 60), choice(1, 41)]))
    );
    // more options than a voter may choose
    assert_eq!(
        Err(GovernanceError::InvalidVoteWeights),
        validate_vote(
            &proposal,
            &Vote::Approve(vec![choice(0, 10), choice(1, 10), choice(2, 10)]),
        )
    );
    // choices without weight do not count as chosen
    assert_eq!(
        Ok(()),
        validate_vote(
            &proposal,
            &Vote::Approve(vec![choice(0, 60), choice(1, 0), choice(2, 40), choice(3, 0)]),
        )
    );
    assert_eq!(Ok(()), validate_vote(&proposal, &Vote::Approve(vec![])));
    assert_eq!(Ok(()), validate_vote(&proposal, &Vote::Deny));
    // the missing option is reported before the weights
    assert_eq!(
        Err(GovernanceError::InvalidOptionIndex),
        validate_vote(&proposal, &Vote::Approve(vec![choice(0, 101), choice(4, 1)]))
    );
}

#[test]
fn test_voter_options_by_vote_type() {
    let two = Vote::Approve(vec![choice(0, 50), choice(1, 50)]);
    let one = Vote::Approve(vec![choice(1, 100)]);

    let single = voting(VoteType::SingleChoice, true, 2);
    assert_eq!(Err(GovernanceError::InvalidVoteWeights), validate_vote(&single, &two));
    assert_eq!(Ok(()), validate_vote(&single, &one));

    let multi = voting(VoteType::MultiChoice, true, 2);
    assert_eq!(Ok(()), validate_vote(&multi, &two));
    assert_eq!(Ok(()), validate_vote(&multi, &one));

    let none_allowed = voting(weighted(0), true, 2);
    assert_eq!(
        Err(GovernanceError::InvalidVoteWeights),
        validate_vote(&none_allowed, &one)
    );
}

#[test]
fn test_refused_vote_changes_nothing() {
    let mut proposal = voting(weighted(3), true, 2);
    let mut ledger = VoteLedger::new();
    cast_vote(&mut proposal, &mut ledger, voter(1), 10, Vote::Deny).unwrap();
    let (proposal_before, ledger_before) = (proposal.clone(), ledger.clone());

    let err = cast_vote(
        &mut proposal,
        &mut ledger,
        voter(2),
        10,
        Vote::Approve(vec![choice(0, 100), choice(1, 1)]),
    );

    assert_eq!(Err(GovernanceError::InvalidVoteWeights), err);
    assert_eq!(proposal_before, proposal);
    assert_eq!(ledger_before, ledger);
}

#[test]
fn test_tally_overflow_is_refused() {
    let mut proposal = voting(weighted(3), true, 2);
    let mut ledger = VoteLedger::new();
    cast_vote(
        &mut proposal,
        &mut ledger,
        voter(1),
        u64::MAX,
        Vote::Approve(vec![choice(1, 100)]),
    )
    .unwrap();
    cast_vote(&mut proposal, &mut ledger, voter(2), u64::MAX, Vote::Deny).unwrap();
    assert_eq!(vec![0, u64::MAX], weights(&proposal));
    let (proposal_before, ledger_before) = (proposal.clone(), ledger.clone());

    assert_eq!(
        Err(GovernanceError::ArithmeticOverflow),
        cast_vote(
            &mut proposal,
            &mut ledger,
            voter(3),
            100,
            Vote::Approve(vec![choice(0, 99), choice(1, 1)]),
        )
    );
    assert_eq!(
        Err(GovernanceError::ArithmeticOverflow),
        cast_vote(&mut proposal, &mut ledger, voter(3), 1, Vote::Deny)
    );
    assert_eq!(proposal_before, proposal);
    assert_eq!(ledger_before, ledger);

    // a share that rounds down to nothing still fits
    cast_vote(
        &mut proposal,
        &mut ledger,
        voter(3),
        99,
        Vote::Approve(vec![choice(1, 1)]),
    )
    .unwrap();
    assert_eq!(vec![0, u64::MAX], weights(&proposal));
}

#[test]
fn test_relinquish_without_live_vote_is_refused() {
    let mut proposal = voting(weighted(3), true, 2);
    let mut ledger = VoteLedger::new();
    assert_eq!(
        Err(GovernanceError::VoteNotFound),
        relinquish_vote(&mut proposal, &mut ledger, &voter(1))
    );

    cast_vote(&mut proposal, &mut ledger, voter(1), 10, Vote::Deny).unwrap();
    assert_eq!(
        Err(GovernanceError::VoteNotFound),
        relinquish_vote(&mut proposal, &mut ledger, &voter(2))
    );
    relinquish_vote(&mut proposal, &mut ledger, &voter(1)).unwrap();
    // a vote can be withdrawn once
    assert_eq!(
        Err(GovernanceError::VoteNotFound),
        relinquish_vote(&mut proposal, &mut ledger, &voter(1))
    );
    assert_eq!(Some(0), proposal.deny_vote_weight);
}

#[test]
fn test_relinquish_after_finalization_keeps_tally() {
    let mut proposal = voting(weighted(3), true, 2);
    let mut ledger = VoteLedger::new();
    cast_vote(
        &mut proposal,
        &mut ledger,
        voter(1),
        600,
        Vote::Approve(vec![choice(0, 100)]),
    )
    .unwrap();
    cast_vote(&mut proposal, &mut ledger, voter(2), 10, Vote::Deny).unwrap();
    finalize_vote(&mut proposal, 100, false).unwrap();
    let before = proposal.clone();

    relinquish_vote(&mut proposal, &mut ledger, &voter(1)).unwrap();
    relinquish_vote(&mut proposal, &mut ledger, &voter(2)).unwrap();

    assert_eq!(before, proposal);
    assert_eq!(vec![600, 0], weights(&proposal));
    assert_eq!(Some(10), proposal.deny_vote_weight);
    assert!(ledger.entries[0].is_relinquished);
    assert!(ledger.entries[1].is_relinquished);
}

#[test]
fn test_relinquish_against_foreign_tally_is_refused() {
    // a ledger that does not belong to the proposal
    let mut other = voting(weighted(3), true, 2);
    let mut ledger = VoteLedger::new();
    cast_vote(
        &mut other,
        &mut ledger,
        voter(1),
        10,
        Vote::Approve(vec![choice(1, 100)]),
    )
    .unwrap();
    cast_vote(&mut other, &mut ledger, voter(2), 10, Vote::Deny).unwrap();
    cast_vote(
        &mut other,
        &mut ledger,
        voter(3),
        10,
        Vote::Approve(vec![choice(0, 100)]),
    )
    .unwrap();

    let mut proposal = voting(weighted(3), true, 1);
    let before = proposal.clone();
    let ledger_before = ledger.clone();
    assert_eq!(
        Err(GovernanceError::InvalidOptionIndex),
        relinquish_vote(&mut proposal, &mut ledger, &voter(1))
    );
    assert_eq!(
        Err(GovernanceError::ArithmeticOverflow),
        relinquish_vote(&mut proposal, &mut ledger, &voter(2))
    );
    assert_eq!(
        Err(GovernanceError::ArithmeticOverflow),
        relinquish_vote(&mut proposal, &mut ledger, &voter(3))
    );
    assert_eq!(before, proposal);
    assert_eq!(ledger_before, ledger);
}

#[test]
fn test_voter_ids_compare_by_all_bytes() {
    let mut bytes = [7u8; 32];
    let a = VoterId::new(bytes);
    assert!(a.same_as(&VoterId::new([7u8; 32])));
    bytes[31] = 8;
    assert!(!a.same_as(&VoterId::new(bytes)));
    bytes[31] = 7;
    bytes[0] = 0;
    assert!(!a.same_as(&VoterId::new(bytes)));
    assert_eq!([7u8; 32], a.bytes);
}
