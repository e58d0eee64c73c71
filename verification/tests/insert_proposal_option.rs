use spl_governance::capacity::{account_option, process_insert_proposal_options};
use spl_governance::error::{GovernanceError, GovernanceToolsError};
use spl_governance::proposal::{Proposal, ProposalOption, OPTION_BASE_SIZE, PROPOSAL_BASE_SIZE};
use spl_governance::state::{OptionVoteResult, ProposalState, VoteType};

/// Space that a proposal with the given options needs.
fn calculate_proposal_space(options: &Vec<String>) -> usize {
    let proposal_base_space: usize = "Proposal #X".len() + "Proposal Description".len() + 296;
    let proposal_options_space: usize =
        19 * options.len() + options.iter().map(|o| o.len()).sum::<usize>();
    let proposal_prefetch_space = proposal_base_space + proposal_options_space;
    println!(
        "Test calculated space for proposal account - base space: {}, options space: {}, sum: {}",
        proposal_base_space, proposal_options_space, proposal_prefetch_space
    );
    proposal_prefetch_space
}

fn new_proposal(prefetch_space: usize) -> Proposal {
    Proposal::new(
        "Proposal #X".to_string(),
        "Proposal Description".to_string(),
        VoteType::SingleChoice,
        true,
        60,
        10,
        prefetch_space,
    )
    .unwrap()
}

#[test]
fn test_insert_proposal_option() {
    // Arrange
    let options = vec!["Option 1".to_string(), "Option 2".to_string()];
    let proposal_prefetch_space = calculate_proposal_space(&options);
    let mut proposal = new_proposal(proposal_prefetch_space);

    // on creation of the proposal there is no option inserted
    assert_eq!(0, proposal.options.len());

    // Act
    process_insert_proposal_options(&mut proposal, options).unwrap();

    // Assert
    assert_eq!(2, proposal.options.len());
    assert_eq!("Option 1", proposal.options[0].label);
    assert_eq!("Option 2", proposal.options[1].label);
    assert_eq!(Some(proposal_prefetch_space), proposal.get_max_size());
}

#[test]
fn test_insert_multi_proposal_option() {
    // Arrange
    let options_set1 = vec!["Option 1".to_string()];
    let options_set2 = vec!["Option 1".to_string()];
    let options_set3 = vec!["Option 3".to_string()];
    let options = [
        options_set1.clone(),
        options_set1.clone(),
        options_set3.clone(),
    ]
    .concat();
    let proposal_prefetch_space = calculate_proposal_space(&options);
    let mut proposal = new_proposal(proposal_prefetch_space);

    // Act
    process_insert_proposal_options(&mut proposal, options_set1).unwrap();
    assert_eq!(1, proposal.options.len());

    process_insert_proposal_options(&mut proposal, options_set2).unwrap();
    assert_eq!(2, proposal.options.len());

    process_insert_proposal_options(&mut proposal, options_set3).unwrap();
    assert_eq!(3, proposal.options.len());

    // Assert
    assert_eq!("Option 1", proposal.options[0].label);
    assert_eq!("Option 1", proposal.options[1].label);
    assert_eq!("Option 3", proposal.options[2].label);
}

#[test]
fn test_insert_proposal_option_with_not_editable_proposal_error() {
    // Arrange
    let options = vec!["Option 1".to_string()];
    let proposal_prefetch_space = calculate_proposal_space(&options);
    let mut proposal = new_proposal(proposal_prefetch_space);

    process_insert_proposal_options(&mut proposal, options.clone()).unwrap();
    assert_eq!(1, proposal.options.len());

    proposal.sign_off_proposal(true, 100, 0).unwrap();
    assert_eq!(ProposalState::Voting, proposal.state);

    // Act
    let err = process_insert_proposal_options(&mut proposal, options.clone())
        .err()
        .unwrap();

    // Assert
    assert_eq!(err, GovernanceError::InvalidStateCannotEdit);
    assert_eq!(1, proposal.options.len());
}

#[test]
fn test_inserted_option_starts_from_zero() {
    let mut proposal = new_proposal(1000);
    process_insert_proposal_options(&mut proposal, vec!["Yes".to_string()]).unwrap();
    let option = &proposal.options[0];
    assert_eq!(
        *option,
        ProposalOption {
            label: "Yes".to_string(),
            vote_weight: 0,
            vote_result: OptionVoteResult::Pending,
            transactions_executed_count: 0,
            transactions_count: 0,
            transactions_next_index: 0,
        }
    );
    assert_eq!(*option, ProposalOption::new("Yes".to_string()));
}

#[test]
fn test_option_footprint_is_overhead_plus_label_bytes() {
    assert_eq!(19, OPTION_BASE_SIZE);
    assert_eq!(296, PROPOSAL_BASE_SIZE);
    assert_eq!(Some(19), ProposalOption::new(String::new()).get_max_size());
    assert_eq!(Some(27), ProposalOption::new("Option 1".to_string()).get_max_size());
    // bytes, not characters
    assert_eq!(Some(19 + 6), ProposalOption::new("äöü".to_string()).get_max_size());
}

#[test]
fn test_proposal_size_is_recomputed_from_its_parts() {
    let mut proposal = new_proposal(1000);
    assert_eq!(Some(296 + 11 + 20), proposal.get_max_size());
    process_insert_proposal_options(
        &mut proposal,
        vec!["a".to_string(), "bc".to_string()],
    )
    .unwrap();
    assert_eq!(Some(296 + 11 + 20 + 20 + 21), proposal.get_max_size());
}

#[test]
fn test_insert_fills_the_reserved_space_exactly() {
    let options = vec!["Option 1".to_string(), "Option 2".to_string()];
    let space = calculate_proposal_space(&options);
    let mut proposal = new_proposal(space);
    process_insert_proposal_options(&mut proposal, options).unwrap();
    assert_eq!(Some(space), proposal.get_max_size());

    // not one more byte fits
    let err = process_insert_proposal_options(&mut proposal, vec![String::new()])
        .err()
        .unwrap();
    assert_eq!(
        err,
        GovernanceError::CapacityExceeded {
            new_size: 19,
            current_size: space as u128 + 19,
            account_size: space as u128,
        }
    );
}

#[test]
fn test_insert_exceeding_space_names_first_offending_option() {
    // room for the first two options only
    let fitting = vec!["Option 1".to_string(), "Option 2".to_string()];
    let space = calculate_proposal_space(&fitting);
    let mut proposal = new_proposal(space);
    let before = proposal.clone();

    let err = process_insert_proposal_options(
        &mut proposal,
        vec![
            "Option 1".to_string(),
            "Option 2".to_string(),
            "Option three".to_string(),
            "4".to_string(),
        ],
    )
    .err()
    .unwrap();

    assert_eq!(
        err,
        GovernanceError::CapacityExceeded {
            new_size: 19 + 12,
            current_size: space as u128 + 19 + 12,
            account_size: space as u128,
        }
    );
    // the batch is applied as a whole or not at all
    assert_eq!(before, proposal);
    assert_eq!(0, proposal.options.len());
}

#[test]
fn test_insert_one_byte_short_is_refused() {
    let options = vec!["Option 1".to_string(), "Option 2".to_string()];
    let space = calculate_proposal_space(&options) - 1;
    let mut proposal = new_proposal(space);

    let err = process_insert_proposal_options(&mut proposal, options)
        .err()
        .unwrap();

    assert_eq!(
        err,
        GovernanceError::CapacityExceeded {
            new_size: 27,
            current_size: space as u128 + 1,
            account_size: space as u128,
        }
    );
    assert_eq!(0, proposal.options.len());
}

#[test]
fn test_later_options_of_a_batch_do_not_rescue_it() {
    // the second option overflows; the small third one would fit without it
    let mut proposal = new_proposal(296 + 11 + 20 + 19 + 1 + 19 + 1);
    let err = process_insert_proposal_options(
        &mut proposal,
        vec!["a".to_string(), "much too long".to_string(), "b".to_string()],
    )
    .err()
    .unwrap();
    assert!(matches!(err, GovernanceError::CapacityExceeded { new_size: 32, .. }));
    assert!(proposal.options.is_empty());

    // each part alone is accepted while the space lasts
    process_insert_proposal_options(&mut proposal, vec!["a".to_string()]).unwrap();
    process_insert_proposal_options(&mut proposal, vec!["b".to_string()]).unwrap();
    assert!(process_insert_proposal_options(&mut proposal, vec!["c".to_string()]).is_err());
    assert_eq!(2, proposal.options.len());
}

#[test]
fn test_insert_empty_batch_changes_nothing() {
    let mut proposal = new_proposal(1000);
    let before = proposal.clone();
    process_insert_proposal_options(&mut proposal, vec![]).unwrap();
    assert_eq!(before, proposal);
}

#[test]
fn test_insert_is_allowed_while_signing_off() {
    let mut proposal = new_proposal(1000);
    proposal.sign_off_proposal(false, 0, 0).unwrap();
    assert_eq!(ProposalState::SigningOff, proposal.state);
    assert_eq!(Ok(()), proposal.assert_can_insert_proposal_options());
    process_insert_proposal_options(&mut proposal, vec!["Option 1".to_string()]).unwrap();
    assert_eq!(1, proposal.options.len());
}

#[test]
fn test_insert_is_refused_in_every_later_state() {
    for state in [
        ProposalState::Voting,
        ProposalState::Succeeded,
        ProposalState::Executing,
        ProposalState::Completed,
        ProposalState::Cancelled,
        ProposalState::Defeated,
        ProposalState::ExecutingWithErrors,
    ] {
        let mut proposal = new_proposal(1000);
        proposal.state = state;
        assert_eq!(
            Err(GovernanceError::InvalidStateCannotEdit),
            proposal.assert_can_insert_proposal_options()
        );
        let before = proposal.clone();
        assert_eq!(
            Err(GovernanceError::InvalidStateCannotEdit),
            process_insert_proposal_options(&mut proposal, vec!["Option 1".to_string()])
        );
        assert_eq!(before, proposal);
    }
}

#[test]
fn test_state_is_checked_before_space() {
    let mut proposal = new_proposal(296 + 11 + 20);
    proposal.sign_off_proposal(true, 100, 0).unwrap();
    assert_eq!(
        Err(GovernanceError::InvalidStateCannotEdit),
        process_insert_proposal_options(&mut proposal, vec!["Option 1".to_string()])
    );
}

#[test]
fn test_new_proposal_needs_room_for_itself() {
    let too_small = Proposal::new(
        "Proposal #X".to_string(),
        "Proposal Description".to_string(),
        VoteType::SingleChoice,
        true,
        60,
        10,
        296 + 11 + 20 - 1,
    );
    assert_eq!(
        Err(GovernanceToolsError::CreateAccountPrefetchSpaceExceeded),
        too_small
    );

    let exact = new_proposal(296 + 11 + 20);
    assert_eq!(ProposalState::Draft, exact.state);
    assert_eq!(Some(0), exact.deny_vote_weight);
    assert_eq!(None, exact.max_vote_weight);
    assert_eq!(None, exact.voting_at);
    assert_eq!(None, exact.voting_completed_at);
    assert_eq!(296 + 11 + 20, exact.account_size);
    assert!(exact.options.is_empty());
}

#[test]
fn test_new_proposal_without_deny_option_has_no_deny_pool() {
    let proposal = Proposal::new(
        "Survey".to_string(),
        String::new(),
        VoteType::MultiChoice,
        false,
        10,
        10,
        1000,
    )
    .unwrap();
    assert_eq!(None, proposal.deny_vote_weight);
    assert_eq!(VoteType::MultiChoice, proposal.vote_type);
    assert_eq!(10, proposal.vote_threshold_percentage);
}

#[test]
fn test_account_option_grows_the_accounted_size() {
    assert_eq!(Ok(327 + 27), account_option(327, &"Option 1".to_string(), 1_000));
    // up to the last byte
    assert_eq!(Ok(354), account_option(327, &"Option 1".to_string(), 354));
    assert_eq!(Ok(19), account_option(0, &String::new(), 19));
}

#[test]
fn test_account_option_refuses_what_does_not_fit() {
    assert_eq!(
        Err(GovernanceError::CapacityExceeded {
            new_size: 27,
            current_size: 354,
            account_size: 353,
        }),
        account_option(327, &"Option 1".to_string(), 353)
    );
    // sizes beyond the machine's word are still exact
    assert_eq!(
        Err(GovernanceError::CapacityExceeded {
            new_size: 20,
            current_size: usize::MAX as u128 + 20,
            account_size: usize::MAX as u128,
        }),
        account_option(usize::MAX, &"a".to_string(), usize::MAX)
    );
    // an account that is too small already
    assert_eq!(
        Err(GovernanceError::CapacityExceeded {
            new_size: 19,
            current_size: 119,
            account_size: 50,
        }),
        account_option(100, &String::new(), 50)
    );
}
