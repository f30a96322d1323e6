use issue_bounty::competition::{check_consensus, IssueBountyManager};
use issue_bounty::events::{
    CompetitionEnded, EmissionsHarvested, EmissionsRecycled, Event, IssueRegistered, PairVoteCast,
    StakeMovedToValidator,
};
use issue_bounty::errors::Error;
use issue_bounty::registry::is_valid_repo_name;
use issue_bounty::types::{
    account, AccountId, CompetitionStatus, IssueStatus, DEFAULT_COMPETITION_DEADLINE_BLOCKS,
    DEFAULT_PROPOSAL_EXPIRY_BLOCKS, DEFAULT_SUBMISSION_WINDOW_BLOCKS, MIN_BOUNTY,
    MIN_CONSENSUS_STAKE,
};

fn alice() -> AccountId {
    account(1)
}

fn bob() -> AccountId {
    account(2)
}

fn charlie() -> AccountId {
    account(3)
}

fn django() -> AccountId {
    account(4)
}

fn eve() -> AccountId {
    account(5)
}

fn manager() -> IssueBountyManager {
    IssueBountyManager::new(alice(), bob(), charlie(), 74)
}

fn register(c: &mut IssueBountyManager, n: u32, target: u128) -> u64 {
    c.register_issue(
        alice(),
        format!("https://github.com/test/repo/issues/{}", n),
        String::from("test/repo"),
        n,
        target,
        0,
    )
    .unwrap()
}

/// Registers issue 1, funds it, and starts a competition between bob and
/// charlie at block 0 with one vote carrying the consensus stake.
fn running_competition() -> (IssueBountyManager, u64) {
    let mut c = manager();
    register(&mut c, 1, MIN_BOUNTY);
    c.deposit_to_pool(alice(), MIN_BOUNTY);
    c.propose_pair(django(), MIN_CONSENSUS_STAKE, 0, 1, bob(), charlie())
        .unwrap();
    (c, 1)
}

#[test]
fn test_constructor() {
    let contract = manager();
    assert_eq!(contract.owner(), alice());
    assert_eq!(contract.treasury_hotkey(), bob());
    assert_eq!(contract.netuid(), 74);
    assert_eq!(contract.next_issue_id(), 1);
    assert_eq!(contract.next_competition_id(), 1);
    assert_eq!(contract.get_alpha_pool(), 0);
}

#[test]
fn test_register_issue() {
    let mut contract = manager();
    let result = contract.register_issue(
        alice(),
        String::from("https://github.com/test/repo/issues/1"),
        String::from("test/repo"),
        1,
        MIN_BOUNTY,
        0,
    );
    assert!(result.is_ok());
    assert_eq!(result.unwrap(), 1);
    assert_eq!(contract.next_issue_id(), 2);
    let issue = contract.get_issue(1);
    assert!(issue.is_some());
    let issue = issue.unwrap();
    assert_eq!(issue.id, 1);
    assert_eq!(issue.issue_number, 1);
    assert_eq!(issue.status, IssueStatus::Registered);
}

#[test]
fn test_register_issue_not_owner() {
    let mut contract = manager();
    let result = contract.register_issue(
        bob(),
        String::from("https://github.com/test/repo/issues/1"),
        String::from("test/repo"),
        1,
        MIN_BOUNTY,
        0,
    );
    assert_eq!(result, Err(Error::NotOwner));
}

#[test]
fn test_register_issue_bounty_too_low() {
    let mut contract = manager();
    let result = contract.register_issue(
        alice(),
        String::from("https://github.com/test/repo/issues/1"),
        String::from("test/repo"),
        1,
        MIN_BOUNTY.saturating_sub(1),
        0,
    );
    assert_eq!(result, Err(Error::BountyTooLow));
}

#[test]
fn test_register_issue_invalid_repo_name() {
    let mut contract = manager();
    for name in ["testrepo", "/repo", "test/"] {
        let result = contract.register_issue(
            alice(),
            String::from("https://github.com/test/issues/1"),
            String::from(name),
            1,
            MIN_BOUNTY,
            0,
        );
        assert_eq!(result, Err(Error::InvalidRepositoryName));
    }
}

#[test]
fn test_is_valid_repo_name() {
    assert!(is_valid_repo_name("owner/repo"));
    assert!(is_valid_repo_name("test/test"));
    assert!(!is_valid_repo_name("noslash"));
    assert!(!is_valid_repo_name("/startwithslash"));
    assert!(!is_valid_repo_name("endwithslash/"));
    assert!(!is_valid_repo_name("multiple/slashes/here"));
}

#[test]
fn test_cancel_issue() {
    let mut contract = manager();
    let issue_id = register(&mut contract, 1, MIN_BOUNTY);
    assert!(contract.cancel_issue(alice(), issue_id).is_ok());
    let issue = contract.get_issue(issue_id).unwrap();
    assert_eq!(issue.status, IssueStatus::Cancelled);
}

#[test]
fn test_set_owner() {
    let mut contract = manager();
    assert_eq!(contract.owner(), alice());
    assert!(contract.set_owner(alice(), charlie()).is_ok());
    assert_eq!(contract.owner(), charlie());
}

#[test]
fn test_get_issues_by_status() {
    let mut contract = manager();
    register(&mut contract, 1, MIN_BOUNTY);
    register(&mut contract, 2, MIN_BOUNTY);
    assert_eq!(contract.get_issues_by_status(IssueStatus::Registered).len(), 2);
    assert_eq!(contract.get_issues_by_status(IssueStatus::Active).len(), 0);
}

#[test]
fn test_validate_active_competition_not_found() {
    let contract = manager();
    assert_eq!(
        contract.validate_active_competition(999),
        Err(Error::CompetitionNotFound)
    );
}

#[test]
fn test_check_consensus_threshold() {
    assert!(!check_consensus(0));
    assert!(!check_consensus(MIN_CONSENSUS_STAKE - 1));
    assert!(check_consensus(MIN_CONSENSUS_STAKE));
    assert!(check_consensus(MIN_CONSENSUS_STAKE + 1));
}

#[test]
fn test_check_not_voted_solution() {
    let (mut contract, comp) = running_competition();
    let after_window = DEFAULT_SUBMISSION_WINDOW_BLOCKS + 1;
    assert!(contract
        .vote_solution(bob(), 1, after_window, comp, bob(), [1u8; 32])
        .is_ok());
    assert_eq!(
        contract.vote_solution(bob(), 1, after_window, comp, bob(), [1u8; 32]),
        Err(Error::AlreadyVoted)
    );
    assert!(contract
        .vote_solution(charlie(), 1, after_window, comp, bob(), [1u8; 32])
        .is_ok());
}

#[test]
fn test_fill_bounties_fifo_order() {
    let mut contract = manager();
    register(&mut contract, 1, MIN_BOUNTY);
    register(&mut contract, 2, MIN_BOUNTY * 2);
    contract.deposit_to_pool(alice(), MIN_BOUNTY);
    let issue1 = contract.get_issue(1).unwrap();
    assert_eq!(issue1.bounty_amount, MIN_BOUNTY);
    assert_eq!(issue1.status, IssueStatus::Active);
    let issue2 = contract.get_issue(2).unwrap();
    assert_eq!(issue2.bounty_amount, 0);
    assert_eq!(issue2.status, IssueStatus::Registered);
    assert_eq!(contract.get_alpha_pool(), 0);
}

#[test]
fn test_fill_bounties_partial_fill() {
    let mut contract = manager();
    register(&mut contract, 1, MIN_BOUNTY * 3);
    contract.deposit_to_pool(alice(), MIN_BOUNTY);
    let issue = contract.get_issue(1).unwrap();
    assert_eq!(issue.bounty_amount, MIN_BOUNTY);
    assert_eq!(issue.status, IssueStatus::Registered);
    contract.deposit_to_pool(alice(), MIN_BOUNTY * 2);
    let issue = contract.get_issue(1).unwrap();
    assert_eq!(issue.bounty_amount, MIN_BOUNTY * 3);
    assert_eq!(issue.status, IssueStatus::Active);
}

#[test]
fn test_start_competition_state_changes() {
    let (contract, comp_id) = running_competition();
    let comp = contract.get_competition(comp_id).unwrap();
    assert_eq!(comp.id, 1);
    assert_eq!(comp.issue_id, 1);
    assert_eq!(comp.miner1_hotkey, bob());
    assert_eq!(comp.miner2_hotkey, charlie());
    assert_eq!(comp.status, CompetitionStatus::Active);
    assert_eq!(comp.submission_window_end_block, DEFAULT_SUBMISSION_WINDOW_BLOCKS);
    assert_eq!(comp.deadline_block, DEFAULT_COMPETITION_DEADLINE_BLOCKS);
    assert_eq!(contract.get_issue(1).unwrap().status, IssueStatus::InCompetition);
    assert!(contract.is_miner_in_competition(bob()));
    assert!(contract.is_miner_in_competition(charlie()));
    assert_eq!(contract.get_miner_competition(bob()), comp_id);
    assert_eq!(contract.get_issue_competition(1), comp_id);
    assert!(contract.get_pair_proposal(1).is_none());
}

#[test]
fn test_complete_competition_state_changes() {
    let (mut contract, comp_id) = running_competition();
    let pr_hash = [1u8; 32];
    contract
        .vote_solution(
            django(),
            MIN_CONSENSUS_STAKE,
            DEFAULT_SUBMISSION_WINDOW_BLOCKS + 1,
            comp_id,
            bob(),
            pr_hash,
        )
        .unwrap();
    let comp = contract.get_competition(comp_id).unwrap();
    assert_eq!(comp.status, CompetitionStatus::Completed);
    assert_eq!(comp.winner_hotkey, bob());
    assert_eq!(comp.winning_pr_url_hash, pr_hash);
    assert_eq!(comp.payout_amount, MIN_BOUNTY);
    let issue = contract.get_issue(1).unwrap();
    assert_eq!(issue.status, IssueStatus::Completed);
    assert_eq!(issue.bounty_amount, 0);
    assert!(!contract.is_miner_in_competition(bob()));
    assert!(!contract.is_miner_in_competition(charlie()));
}

#[test]
fn test_timeout_competition_returns_to_active() {
    let (mut contract, comp_id) = running_competition();
    contract
        .vote_timeout(
            django(),
            MIN_CONSENSUS_STAKE,
            DEFAULT_COMPETITION_DEADLINE_BLOCKS + 1,
            comp_id,
        )
        .unwrap();
    let comp = contract.get_competition(comp_id).unwrap();
    assert_eq!(comp.status, CompetitionStatus::TimedOut);
    let issue = contract.get_issue(1).unwrap();
    assert_eq!(issue.status, IssueStatus::Active);
    assert_eq!(issue.bounty_amount, MIN_BOUNTY);
    assert!(!contract.is_miner_in_competition(bob()));
}

#[test]
fn test_propose_competition_same_miners_fails() {
    let mut contract = manager();
    register(&mut contract, 1, MIN_BOUNTY);
    contract.deposit_to_pool(alice(), MIN_BOUNTY);
    assert_eq!(
        contract.propose_pair(alice(), 1, 0, 1, bob(), bob()),
        Err(Error::SameMiners)
    );
}

#[test]
fn test_propose_competition_issue_not_active() {
    let mut contract = manager();
    register(&mut contract, 1, MIN_BOUNTY);
    assert_eq!(
        contract.propose_pair(alice(), 1, 0, 1, bob(), charlie()),
        Err(Error::IssueNotActive)
    );
}

#[test]
fn test_propose_competition_miner_already_in_competition() {
    let mut contract = manager();
    register(&mut contract, 1, MIN_BOUNTY);
    register(&mut contract, 2, MIN_BOUNTY);
    contract.deposit_to_pool(alice(), MIN_BOUNTY * 2);
    contract
        .propose_pair(alice(), MIN_CONSENSUS_STAKE, 0, 1, bob(), charlie())
        .unwrap();
    assert_eq!(
        contract.propose_pair(alice(), MIN_CONSENSUS_STAKE, 0, 2, bob(), eve()),
        Err(Error::MinerAlreadyInCompetition)
    );
}

#[test]
fn test_set_competition_config() {
    let mut contract = manager();
    assert_eq!(contract.get_submission_window_blocks(), DEFAULT_SUBMISSION_WINDOW_BLOCKS);
    assert_eq!(contract.get_competition_deadline_blocks(), DEFAULT_COMPETITION_DEADLINE_BLOCKS);
    assert_eq!(contract.get_proposal_expiry_blocks(), DEFAULT_PROPOSAL_EXPIRY_BLOCKS);
    assert!(contract.set_competition_config(alice(), 100, 200, 50).is_ok());
    assert_eq!(contract.get_submission_window_blocks(), 100);
    assert_eq!(contract.get_competition_deadline_blocks(), 200);
    assert_eq!(contract.get_proposal_expiry_blocks(), 50);
}

#[test]
fn test_set_competition_config_not_owner() {
    let mut contract = manager();
    assert_eq!(
        contract.set_competition_config(bob(), 100, 200, 50),
        Err(Error::NotOwner)
    );
}

#[test]
fn test_set_treasury_hotkey() {
    let mut contract = manager();
    assert_eq!(contract.treasury_hotkey(), bob());
    assert!(contract.set_treasury_hotkey(alice(), charlie()).is_ok());
    assert_eq!(contract.treasury_hotkey(), charlie());
}

#[test]
fn test_cancel_issue_not_found() {
    let mut contract = manager();
    assert_eq!(contract.cancel_issue(alice(), 999), Err(Error::IssueNotFound));
}

#[test]
fn test_register_issue_duplicate_url() {
    let mut contract = manager();
    let url = String::from("https://github.com/test/repo/issues/1");
    contract
        .register_issue(alice(), url.clone(), String::from("test/repo"), 1, MIN_BOUNTY, 0)
        .unwrap();
    let result =
        contract.register_issue(alice(), url, String::from("test/repo"), 2, MIN_BOUNTY, 0);
    assert_eq!(result, Err(Error::IssueAlreadyExists));
}

#[test]
fn test_register_issue_zero_issue_number() {
    let mut contract = manager();
    let result = contract.register_issue(
        alice(),
        String::from("https://github.com/test/repo/issues/0"),
        String::from("test/repo"),
        0,
        MIN_BOUNTY,
        0,
    );
    assert_eq!(result, Err(Error::InvalidIssueNumber));
}

#[test]
fn test_cancel_issue_in_competition() {
    let (mut contract, _) = running_competition();
    assert_eq!(contract.cancel_issue(alice(), 1), Err(Error::CannotCancel));
}

#[test]
fn test_cancel_issue_already_cancelled() {
    let mut contract = manager();
    register(&mut contract, 1, MIN_BOUNTY);
    contract.cancel_issue(alice(), 1).unwrap();
    assert_eq!(contract.cancel_issue(alice(), 1), Err(Error::CannotCancel));
}

#[test]
fn test_validate_active_competition_not_active() {
    let (mut contract, comp_id) = running_competition();
    contract
        .vote_solution(
            django(),
            MIN_CONSENSUS_STAKE,
            DEFAULT_SUBMISSION_WINDOW_BLOCKS + 1,
            comp_id,
            bob(),
            [1u8; 32],
        )
        .unwrap();
    assert_eq!(
        contract.validate_active_competition(comp_id),
        Err(Error::CompetitionNotActive)
    );
}

#[test]
fn test_propose_competition_issue_not_found() {
    let mut contract = manager();
    assert_eq!(
        contract.propose_pair(alice(), 1, 0, 1, bob(), charlie()),
        Err(Error::IssueNotFound)
    );
}

#[test]
fn test_propose_competition_replaces_existing_proposal() {
    let mut contract = manager();
    register(&mut contract, 1, MIN_BOUNTY);
    contract.deposit_to_pool(alice(), MIN_BOUNTY);
    contract.propose_pair(alice(), 100, 0, 1, bob(), charlie()).unwrap();
    assert_eq!(
        contract.propose_pair(alice(), 0, 0, 1, django(), eve()),
        Err(Error::InsufficientStake)
    );
    contract.propose_pair(django(), 50, 3, 1, django(), eve()).unwrap();
    let proposal = contract.get_pair_proposal(1).unwrap();
    assert_eq!(proposal.miner1_hotkey, django());
    assert_eq!(proposal.miner2_hotkey, eve());
    assert_eq!(proposal.total_stake_voted, 50);
    assert_eq!(proposal.votes_count, 1);
    assert_eq!(proposal.proposed_at_block, 3);
}

#[test]
fn test_payout_bounty_not_owner() {
    let contract = manager();
    assert_eq!(
        contract.payout_bounty(bob(), 1, charlie()).err(),
        Some(Error::NotOwner)
    );
}

#[test]
fn test_payout_bounty_competition_not_found() {
    let contract = manager();
    assert_eq!(
        contract.payout_bounty(alice(), 999, charlie()).err(),
        Some(Error::CompetitionNotFound)
    );
}

#[test]
fn test_payout_bounty_not_completed() {
    let (contract, comp_id) = running_competition();
    assert_eq!(
        contract.payout_bounty(alice(), comp_id, bob()).err(),
        Some(Error::BountyNotCompleted)
    );
}

#[test]
fn test_fill_bounties_empty_queue_with_funds() {
    let mut contract = manager();
    contract.deposit_to_pool(alice(), MIN_BOUNTY * 5);
    assert_eq!(contract.get_alpha_pool(), MIN_BOUNTY * 5);
    assert!(contract.get_bounty_queue().is_empty());
}

#[test]
fn test_fill_bounties_empty_pool_with_queue() {
    let mut contract = manager();
    register(&mut contract, 1, MIN_BOUNTY);
    contract.fill_bounties();
    let issue = contract.get_issue(1).unwrap();
    assert_eq!(issue.bounty_amount, 0);
    assert_eq!(issue.status, IssueStatus::Registered);
    assert_eq!(contract.get_alpha_pool(), 0);
}

#[test]
fn test_fill_bounties_cancelled_issue_in_queue() {
    let mut contract = manager();
    register(&mut contract, 1, MIN_BOUNTY);
    register(&mut contract, 2, MIN_BOUNTY);
    contract.cancel_issue(alice(), 1).unwrap();
    contract.deposit_to_pool(alice(), MIN_BOUNTY);
    let issue2 = contract.get_issue(2).unwrap();
    assert_eq!(issue2.bounty_amount, MIN_BOUNTY);
    assert_eq!(issue2.status, IssueStatus::Active);
    assert_eq!(contract.get_alpha_pool(), 0);
}

#[test]
fn test_fill_bounties_multiple_partial_fills() {
    let mut contract = manager();
    register(&mut contract, 1, MIN_BOUNTY);
    register(&mut contract, 2, MIN_BOUNTY);
    register(&mut contract, 3, MIN_BOUNTY);
    contract.deposit_to_pool(alice(), MIN_BOUNTY + MIN_BOUNTY / 2);
    let issue1 = contract.get_issue(1).unwrap();
    assert_eq!(issue1.bounty_amount, MIN_BOUNTY);
    assert_eq!(issue1.status, IssueStatus::Active);
    // Swap-removal of issue 1 moved issue 3 to the front of the queue.
    let issue3 = contract.get_issue(3).unwrap();
    assert_eq!(issue3.bounty_amount, MIN_BOUNTY / 2);
    assert_eq!(issue3.status, IssueStatus::Registered);
    let issue2 = contract.get_issue(2).unwrap();
    assert_eq!(issue2.bounty_amount, 0);
    assert_eq!(issue2.status, IssueStatus::Registered);
    assert_eq!(contract.get_alpha_pool(), 0);
    assert_eq!(contract.get_bounty_queue(), vec![3, 2]);
}

#[test]
fn test_cancel_issue_with_bounty_returns_to_pool() {
    let mut contract = manager();
    register(&mut contract, 1, MIN_BOUNTY);
    contract.deposit_to_pool(alice(), MIN_BOUNTY);
    assert_eq!(contract.get_alpha_pool(), 0);
    contract.cancel_issue(alice(), 1).unwrap();
    assert_eq!(contract.get_alpha_pool(), MIN_BOUNTY);
    let issue = contract.get_issue(1).unwrap();
    assert_eq!(issue.status, IssueStatus::Cancelled);
    assert_eq!(issue.bounty_amount, 0);
}

#[test]
fn test_cancel_issue_with_zero_bounty() {
    let mut contract = manager();
    register(&mut contract, 1, MIN_BOUNTY);
    contract.cancel_issue(alice(), 1).unwrap();
    assert_eq!(contract.get_alpha_pool(), 0);
    let issue = contract.get_issue(1).unwrap();
    assert_eq!(issue.status, IssueStatus::Cancelled);
    assert_eq!(issue.bounty_amount, 0);
}

#[test]
fn test_register_multiple_issues_sequential_ids() {
    let mut contract = manager();
    assert_eq!(register(&mut contract, 1, MIN_BOUNTY), 1);
    assert_eq!(register(&mut contract, 2, MIN_BOUNTY), 2);
    assert_eq!(register(&mut contract, 3, MIN_BOUNTY), 3);
    assert_eq!(contract.next_issue_id(), 4);
}

#[test]
fn test_bounty_queue_ordering_after_fill() {
    let mut contract = manager();
    register(&mut contract, 1, MIN_BOUNTY);
    register(&mut contract, 2, MIN_BOUNTY);
    contract.deposit_to_pool(alice(), MIN_BOUNTY);
    let queue = contract.get_bounty_queue();
    assert_eq!(queue.len(), 1);
    assert_eq!(queue[0], 2);
}

#[test]
fn test_check_not_voted_timeout() {
    let (mut contract, comp) = running_competition();
    let late = DEFAULT_COMPETITION_DEADLINE_BLOCKS + 1;
    assert!(contract.vote_timeout(bob(), 1, late, comp).is_ok());
    assert_eq!(
        contract.vote_timeout(bob(), 1, late, comp),
        Err(Error::AlreadyVoted)
    );
    assert!(contract.vote_timeout(charlie(), 1, late, comp).is_ok());
}

#[test]
fn test_check_not_voted_cancel_issue() {
    let (mut contract, comp) = running_competition();
    assert!(contract.vote_cancel(bob(), 1, comp, [5u8; 32]).is_ok());
    assert_eq!(
        contract.vote_cancel(bob(), 1, comp, [5u8; 32]),
        Err(Error::AlreadyVoted)
    );
    assert!(contract.vote_cancel(charlie(), 1, comp, [5u8; 32]).is_ok());
}

#[test]
fn test_set_owner_not_owner() {
    let mut contract = manager();
    assert_eq!(contract.set_owner(bob(), bob()), Err(Error::NotOwner));
}

#[test]
fn test_set_treasury_hotkey_not_owner() {
    let mut contract = manager();
    assert_eq!(contract.set_treasury_hotkey(bob(), charlie()), Err(Error::NotOwner));
}

#[test]
fn test_set_validator_hotkey_not_owner() {
    let mut contract = manager();
    assert_eq!(contract.set_validator_hotkey(bob(), charlie()), Err(Error::NotOwner));
}

#[test]
fn test_constructor_validator_hotkey() {
    let contract = manager();
    assert_eq!(contract.validator_hotkey(), charlie());
}

#[test]
fn test_set_validator_hotkey() {
    let mut contract = manager();
    assert_eq!(contract.validator_hotkey(), charlie());
    assert!(contract.set_validator_hotkey(alice(), django()).is_ok());
    assert_eq!(contract.validator_hotkey(), django());
}

#[test]
fn cancel_vote_returns_escrow_and_completes_issue() {
    let (mut contract, comp) = running_competition();
    contract
        .vote_cancel(django(), MIN_CONSENSUS_STAKE, comp, [7u8; 32])
        .unwrap();
    assert_eq!(
        contract.get_competition(comp).unwrap().status,
        CompetitionStatus::Cancelled
    );
    let issue = contract.get_issue(1).unwrap();
    assert_eq!(issue.status, IssueStatus::Completed);
    assert_eq!(issue.bounty_amount, 0);
    assert_eq!(contract.get_alpha_pool(), MIN_BOUNTY);
    assert!(!contract.is_miner_in_competition(bob()));
    assert!(contract.get_active_competitions().is_empty());
}

#[test]
fn stake_below_threshold_keeps_proposal_open() {
    let mut contract = manager();
    register(&mut contract, 1, MIN_BOUNTY);
    contract.deposit_to_pool(alice(), MIN_BOUNTY);
    let half = MIN_CONSENSUS_STAKE / 2;
    contract.propose_pair(alice(), half, 0, 1, bob(), charlie()).unwrap();
    assert!(contract.get_competition(1).is_none());
    assert_eq!(contract.get_pair_proposal(1).unwrap().total_stake_voted, half);
    assert_eq!(contract.vote_pair(alice(), half, 1, 1), Err(Error::AlreadyVoted));
    contract.vote_pair(django(), half - 1, 1, 1).unwrap();
    assert!(contract.get_competition(1).is_none());
    let p = contract.get_pair_proposal(1).unwrap();
    assert_eq!(p.total_stake_voted, MIN_CONSENSUS_STAKE - 1);
    assert_eq!(p.votes_count, 2);
    contract.vote_pair(eve(), 1, 2, 1).unwrap();
    assert_eq!(contract.get_competition(1).unwrap().status, CompetitionStatus::Active);
    assert!(contract.get_pair_proposal(1).is_none());
    assert_eq!(contract.next_competition_id(), 2);
    assert_eq!(contract.vote_pair(account(9), 1, 2, 1), Err(Error::ProposalNotFound));
}

#[test]
fn expired_proposal_is_cleared() {
    let mut contract = manager();
    register(&mut contract, 1, MIN_BOUNTY);
    contract.deposit_to_pool(alice(), MIN_BOUNTY);
    contract.propose_pair(alice(), 1, 10, 1, bob(), charlie()).unwrap();
    assert_eq!(
        contract.vote_pair(django(), 1, 10 + DEFAULT_PROPOSAL_EXPIRY_BLOCKS + 1, 1),
        Err(Error::ProposalExpired)
    );
    assert!(contract.get_pair_proposal(1).is_none());
}

#[test]
fn first_solution_vote_fixes_winner() {
    let (mut contract, comp) = running_competition();
    let after_window = DEFAULT_SUBMISSION_WINDOW_BLOCKS + 1;
    contract
        .vote_solution(django(), 1, after_window, comp, bob(), [1u8; 32])
        .unwrap();
    contract
        .vote_solution(eve(), MIN_CONSENSUS_STAKE, after_window, comp, charlie(), [2u8; 32])
        .unwrap();
    let c = contract.get_competition(comp).unwrap();
    assert_eq!(c.winner_hotkey, bob());
    assert_eq!(c.winning_pr_url_hash, [1u8; 32]);
}

#[test]
fn solution_vote_checks_window_and_winner() {
    let (mut contract, comp) = running_competition();
    assert_eq!(
        contract.vote_solution(django(), 1, DEFAULT_SUBMISSION_WINDOW_BLOCKS, comp, bob(), [1u8; 32]),
        Err(Error::SubmissionWindowNotEnded)
    );
    assert_eq!(
        contract.vote_solution(django(), 1, DEFAULT_SUBMISSION_WINDOW_BLOCKS + 1, comp, eve(), [1u8; 32]),
        Err(Error::InvalidWinner)
    );
    assert_eq!(
        contract.vote_timeout(django(), 1, DEFAULT_COMPETITION_DEADLINE_BLOCKS, comp),
        Err(Error::DeadlineNotPassed)
    );
    assert_eq!(
        contract.vote_solution(django(), 0, DEFAULT_SUBMISSION_WINDOW_BLOCKS + 1, comp, bob(), [1u8; 32]),
        Err(Error::InsufficientStake)
    );
}

#[test]
fn released_miners_can_be_paired_again() {
    let (mut contract, comp) = running_competition();
    contract
        .vote_timeout(django(), MIN_CONSENSUS_STAKE, DEFAULT_COMPETITION_DEADLINE_BLOCKS + 1, comp)
        .unwrap();
    assert_eq!(contract.get_miner_competition(bob()), 0);
    contract
        .propose_pair(django(), MIN_CONSENSUS_STAKE, 60000, 1, bob(), charlie())
        .unwrap();
    assert_eq!(contract.get_miner_competition(bob()), 2);
    assert_eq!(contract.get_active_competitions().len(), 1);
}

#[test]
fn payout_of_completed_competition() {
    let (mut contract, comp) = running_competition();
    contract
        .vote_solution(django(), MIN_CONSENSUS_STAKE, DEFAULT_SUBMISSION_WINDOW_BLOCKS + 1, comp, bob(), [1u8; 32])
        .unwrap();
    let payout = contract.payout_bounty(alice(), comp, eve()).unwrap();
    assert_eq!(payout.amount, MIN_BOUNTY);
    let bytes = payout.call.bytes();
    assert_eq!(bytes.len(), 3 + 32 + 2 + 2 + 32 + 32 + 2 + 2 + 8);
    assert_eq!(&bytes[..3], &[16, 0, 0]);
    assert_eq!(&bytes[35..39], &[1, 10, 7, 86]);
    assert_eq!(&bytes[39..71], &[5u8; 32]);
    assert_eq!(&bytes[71..103], &[2u8; 32]);
    assert_eq!(&bytes[103..107], &[74, 0, 74, 0]);
    assert_eq!(&bytes[107..], &MIN_BOUNTY.to_le_bytes()[..8]);
    assert_eq!(contract.settle_payout(comp, eve(), payout.amount, false), Err(Error::TransferFailed));
    contract.take_events();
    assert_eq!(contract.settle_payout(comp, eve(), payout.amount, true), Ok(MIN_BOUNTY));
    let events = contract.take_events();
    assert_eq!(events.len(), 1);
    assert!(matches!(events[0], Event::BountyPaidOut(e) if e.amount == MIN_BOUNTY && e.miner == eve() && e.issue_id == 1));
}

#[test]
fn harvest_fills_moves_and_recycles() {
    let mut contract = manager();
    register(&mut contract, 1, MIN_BOUNTY);
    let plan = contract.begin_harvest(MIN_BOUNTY * 3);
    assert_eq!(plan.harvested, MIN_BOUNTY * 3);
    assert_eq!(plan.bounties_filled, 0);
    assert_eq!(plan.to_move, MIN_BOUNTY);
    assert_eq!(plan.to_recycle, MIN_BOUNTY * 2);
    assert_eq!(contract.get_issue(1).unwrap().status, IssueStatus::Active);
    let result = contract.settle_harvest(plan, true, true, 42);
    assert_eq!(result.harvested, MIN_BOUNTY * 3);
    assert_eq!(result.recycled, MIN_BOUNTY * 2);
    assert_eq!(contract.get_alpha_pool(), 0);
    assert_eq!(contract.get_last_known_stake(), 0);
    assert_eq!(contract.get_last_harvest_block(), 42);
    let again = contract.begin_harvest(0);
    assert_eq!(again.harvested, 0);
}

#[test]
fn failed_recycle_keeps_pool() {
    let mut contract = manager();
    let plan = contract.begin_harvest(MIN_BOUNTY);
    let result = contract.settle_harvest(plan, false, false, 7);
    assert_eq!(result.recycled, 0);
    assert_eq!(contract.get_alpha_pool(), MIN_BOUNTY);
    assert_eq!(contract.get_last_known_stake(), MIN_BOUNTY);
    assert_eq!(contract.begin_harvest(MIN_BOUNTY).harvested, 0);
    assert!(contract.reset_stake_tracking(bob(), 5).is_err());
    assert!(contract.reset_stake_tracking(alice(), 5).is_ok());
    assert_eq!(contract.get_last_known_stake(), 5);
}

#[test]
fn operations_record_events_in_order() {
    let mut contract = manager();
    register(&mut contract, 1, MIN_BOUNTY);
    let events = contract.take_events();
    assert_eq!(events.len(), 1);
    match &events[0] {
        Event::IssueRegistered(IssueRegistered { issue_id, repository_full_name, target_bounty, .. }) => {
            assert_eq!(*issue_id, 1);
            assert_eq!(repository_full_name, "test/repo");
            assert_eq!(*target_bounty, MIN_BOUNTY);
        }
        other => panic!("unexpected event {:?}", other),
    }
    assert!(contract.take_events().is_empty());
    contract.deposit_to_pool(alice(), MIN_BOUNTY);
    contract.propose_pair(django(), MIN_CONSENSUS_STAKE, 0, 1, bob(), charlie()).unwrap();
    contract.vote_cancel(django(), MIN_CONSENSUS_STAKE, 1, [9u8; 32]).unwrap();
    let events = contract.take_events();
    assert_eq!(events.len(), 4);
    assert!(matches!(events[0], Event::PoolDeposit(_)));
    assert_eq!(
        events[1],
        Event::PairVoteCast(PairVoteCast { issue_id: 1, voter: django(), stake: MIN_CONSENSUS_STAKE })
    );
    assert!(matches!(events[2], Event::CompetitionStarted(e) if e.competition_id == 1 && e.deadline_block == DEFAULT_COMPETITION_DEADLINE_BLOCKS));
    assert_eq!(
        events[3],
        Event::CompetitionEnded(CompetitionEnded { competition_id: 1, issue_id: 1, status: 3, reason_hash: [9u8; 32] })
    );
}

#[test]
fn harvest_records_move_recycle_and_summary() {
    let mut contract = manager();
    register(&mut contract, 1, MIN_BOUNTY);
    contract.take_events();
    let plan = contract.begin_harvest(MIN_BOUNTY * 3);
    contract.settle_harvest(plan, true, true, 5);
    let events = contract.take_events();
    assert_eq!(
        events,
        vec![
            Event::StakeMovedToValidator(StakeMovedToValidator { amount: MIN_BOUNTY, validator: charlie() }),
            Event::EmissionsRecycled(EmissionsRecycled { amount: MIN_BOUNTY * 2, destination: bob() }),
            Event::EmissionsHarvested(EmissionsHarvested {
                amount: MIN_BOUNTY * 3,
                bounties_filled: 0,
                recycled: MIN_BOUNTY * 2,
            }),
        ]
    );
}
