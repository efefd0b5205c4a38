use sol_chain::community::{initialize_community, Community};
use sol_chain::error::SocialChainError;
use sol_chain::governance::{
    cancel_proposal, cast_vote, create_proposal, execute_proposal, finalize_proposal, Proposal,
    ProposalStatus, ProposalType, VoteRecords, VoteType,
};
use sol_chain::pubkey::Pubkey;
use sol_chain::treasury::withdraw_from_treasury;

const NOW: i64 = 1_000;
const DURATION: i64 = 3_600;

fn key(n: u128) -> Pubkey {
    Pubkey::new(0, n)
}

fn community_with_threshold(threshold: u8) -> Community {
    initialize_community(
        key(1),
        "builders".to_string(),
        "BLD".to_string(),
        9,
        threshold,
        0,
        key(2),
        key(3),
        key(4),
        0,
        255,
    )
    .unwrap()
}

fn proposal_of(kind: ProposalType) -> Proposal {
    create_proposal(
        key(10),
        key(11),
        "Fund the garden".to_string(),
        "Buy seeds and tools for the garden".to_string(),
        kind,
        vec![1, 2, 3],
        DURATION,
        NOW,
        254,
    )
    .unwrap()
}

fn vote(p: &mut Proposal, records: &mut VoteRecords, voter: u128, t: VoteType, power: u64) {
    cast_vote(p, key(99), records, key(voter), t, power, NOW + 10, 1).unwrap();
}

#[test]
fn threshold_met_with_yes_majority_is_approved() {
    let community = community_with_threshold(50);
    let mut p = proposal_of(ProposalType::Custom);
    let mut records = VoteRecords::new();
    vote(&mut p, &mut records, 20, VoteType::Yes, 30);
    vote(&mut p, &mut records, 21, VoteType::Yes, 20);
    vote(&mut p, &mut records, 22, VoteType::No, 10);
    assert_eq!(p.yes_votes, 50);
    assert_eq!(p.no_votes, 10);
    assert_eq!(finalize_proposal(&mut p, &community, NOW + DURATION + 1), Ok(()));
    assert_eq!(p.status, ProposalStatus::Approved);
}

#[test]
fn threshold_missed_is_rejected() {
    let community = community_with_threshold(50);
    let mut p = proposal_of(ProposalType::Custom);
    let mut records = VoteRecords::new();
    vote(&mut p, &mut records, 20, VoteType::Yes, 30);
    vote(&mut p, &mut records, 21, VoteType::Yes, 20);
    vote(&mut p, &mut records, 22, VoteType::No, 60);
    assert_eq!(p.yes_votes + p.no_votes, 110);
    assert_eq!(finalize_proposal(&mut p, &community, NOW + DURATION + 1), Ok(()));
    assert_eq!(p.status, ProposalStatus::Rejected);
}

#[test]
fn executed_transfer_proposal_unlocks_one_withdrawal() {
    let community = community_with_threshold(50);
    let mut p = proposal_of(ProposalType::Transfer);
    let mut records = VoteRecords::new();
    vote(&mut p, &mut records, 20, VoteType::Yes, 60);
    vote(&mut p, &mut records, 21, VoteType::No, 40);
    assert_eq!(
        withdraw_from_treasury(&mut p, 100, 1_000),
        Err(SocialChainError::WithdrawalRequiresProposal)
    );
    let end = NOW + DURATION + 1;
    assert_eq!(finalize_proposal(&mut p, &community, end), Ok(()));
    assert_eq!(p.status, ProposalStatus::Approved);
    assert_eq!(
        withdraw_from_treasury(&mut p, 100, 1_000),
        Err(SocialChainError::WithdrawalRequiresProposal)
    );
    assert_eq!(execute_proposal(&mut p, end + 5), Ok(()));
    assert_eq!(p.status, ProposalStatus::Executed);
    assert_eq!(p.executed_at, Some(end + 5));
    assert_eq!(withdraw_from_treasury(&mut p, 1_000, 1_000), Ok(0));
    assert_eq!(
        finalize_proposal(&mut p, &community, end + 10),
        Err(SocialChainError::ProposalNotActive)
    );
    assert_eq!(
        withdraw_from_treasury(&mut p, 1, 1_000),
        Err(SocialChainError::WithdrawalRequiresProposal)
    );
}

#[test]
fn withdrawal_needs_transfer_kind_and_funds() {
    let community = community_with_threshold(50);
    let end = NOW + DURATION + 1;
    let mut records = VoteRecords::new();
    let mut custom = proposal_of(ProposalType::Custom);
    vote(&mut custom, &mut records, 20, VoteType::Yes, 5);
    finalize_proposal(&mut custom, &community, end).unwrap();
    execute_proposal(&mut custom, end).unwrap();
    assert_eq!(withdraw_from_treasury(&mut custom, 1, 10), Err(SocialChainError::InvalidInput));

    let mut records = VoteRecords::new();
    let mut transfer = proposal_of(ProposalType::Transfer);
    vote(&mut transfer, &mut records, 20, VoteType::Yes, 5);
    finalize_proposal(&mut transfer, &community, end).unwrap();
    execute_proposal(&mut transfer, end).unwrap();
    assert_eq!(
        withdraw_from_treasury(&mut transfer, 0, 10),
        Err(SocialChainError::InvalidWithdrawalAmount)
    );
    assert_eq!(
        withdraw_from_treasury(&mut transfer, 11, 10),
        Err(SocialChainError::InsufficientTreasuryBalance)
    );
    assert!(!transfer.withdrawn);
    assert_eq!(withdraw_from_treasury(&mut transfer, 4, 10), Ok(6));
    assert!(transfer.withdrawn);
}

#[test]
fn finalize_only_from_active_after_window() {
    let community = community_with_threshold(50);
    let mut p = proposal_of(ProposalType::Custom);
    assert_eq!(
        finalize_proposal(&mut p, &community, NOW + DURATION),
        Err(SocialChainError::VotingPeriodNotEnded)
    );
    assert_eq!(p.status, ProposalStatus::Active);
    assert_eq!(finalize_proposal(&mut p, &community, NOW + DURATION + 1), Ok(()));
    assert_eq!(p.status, ProposalStatus::Rejected);
    assert_eq!(
        finalize_proposal(&mut p, &community, NOW + DURATION + 2),
        Err(SocialChainError::ProposalNotActive)
    );
    let mut cancelled = proposal_of(ProposalType::Custom);
    cancel_proposal(&mut cancelled, &community, key(11)).unwrap();
    assert_eq!(
        finalize_proposal(&mut cancelled, &community, NOW + DURATION + 1),
        Err(SocialChainError::ProposalNotActive)
    );
    assert_eq!(cancelled.status, ProposalStatus::Cancelled);
}

#[test]
fn execute_succeeds_once_from_approved() {
    let community = community_with_threshold(50);
    let mut p = proposal_of(ProposalType::Custom);
    assert_eq!(execute_proposal(&mut p, NOW), Err(SocialChainError::ProposalNotApproved));
    let mut records = VoteRecords::new();
    vote(&mut p, &mut records, 20, VoteType::Yes, 1);
    finalize_proposal(&mut p, &community, NOW + DURATION + 1).unwrap();
    assert_eq!(execute_proposal(&mut p, NOW + DURATION + 2), Ok(()));
    assert_eq!(
        execute_proposal(&mut p, NOW + DURATION + 3),
        Err(SocialChainError::ProposalAlreadyExecuted)
    );
    assert_eq!(p.executed_at, Some(NOW + DURATION + 2));
    assert_eq!(
        cancel_proposal(&mut p, &community, key(1)),
        Err(SocialChainError::CannotCancelExecutedProposal)
    );
}

#[test]
fn rejected_proposal_cannot_execute() {
    let community = community_with_threshold(50);
    let mut p = proposal_of(ProposalType::Custom);
    finalize_proposal(&mut p, &community, NOW + DURATION + 1).unwrap();
    assert_eq!(execute_proposal(&mut p, NOW + DURATION + 2), Err(SocialChainError::ProposalNotApproved));
    assert_eq!(p.executed_at, None);
}

#[test]
fn second_vote_by_same_voter_is_refused() {
    let mut p = proposal_of(ProposalType::Custom);
    let mut records = VoteRecords::new();
    vote(&mut p, &mut records, 20, VoteType::Yes, 30);
    let again = cast_vote(&mut p, key(99), &mut records, key(20), VoteType::No, 500, NOW + 20, 1);
    assert_eq!(again, Err(SocialChainError::AlreadyVoted));
    assert_eq!((p.yes_votes, p.no_votes, p.abstain_votes, p.total_voters), (30, 0, 0, 1));
    assert_eq!(records.len(), 1);
    let v = records.find(key(99), key(20)).unwrap();
    assert_eq!(v.vote_type, VoteType::Yes);
    assert_eq!(v.voting_power, 30);
    assert!(records.find(key(99), key(21)).is_none());
    // The same voter may still vote on another proposal.
    let mut other = proposal_of(ProposalType::Custom);
    assert_eq!(
        cast_vote(&mut other, key(98), &mut records, key(20), VoteType::No, 7, NOW + 20, 1),
        Ok(())
    );
    assert_eq!(records.len(), 2);
}

#[test]
fn tallies_are_partitioned_by_vote_type() {
    let mut p = proposal_of(ProposalType::Custom);
    let mut records = VoteRecords::new();
    let votes = [(20, VoteType::Yes, 5u64), (21, VoteType::Abstain, 7), (22, VoteType::No, 11), (23, VoteType::Yes, 13)];
    for (voter, t, power) in votes {
        vote(&mut p, &mut records, voter, t, power);
    }
    assert_eq!(p.yes_votes, 18);
    assert_eq!(p.no_votes, 11);
    assert_eq!(p.abstain_votes, 7);
    assert_eq!(p.yes_votes + p.no_votes + p.abstain_votes, 36);
    assert_eq!(p.total_voters, 4);
}

#[test]
fn abstentions_do_not_count_toward_threshold() {
    let community = community_with_threshold(60);
    let mut p = proposal_of(ProposalType::Custom);
    let mut records = VoteRecords::new();
    vote(&mut p, &mut records, 20, VoteType::Yes, 6);
    vote(&mut p, &mut records, 21, VoteType::No, 4);
    vote(&mut p, &mut records, 22, VoteType::Abstain, 1_000);
    finalize_proposal(&mut p, &community, NOW + DURATION + 1).unwrap();
    assert_eq!(p.status, ProposalStatus::Approved);
}

#[test]
fn tie_is_rejected() {
    let community = community_with_threshold(1);
    let mut p = proposal_of(ProposalType::Custom);
    let mut records = VoteRecords::new();
    vote(&mut p, &mut records, 20, VoteType::Yes, 10);
    vote(&mut p, &mut records, 21, VoteType::No, 10);
    finalize_proposal(&mut p, &community, NOW + DURATION + 1).unwrap();
    assert_eq!(p.status, ProposalStatus::Rejected);
}

#[test]
fn vote_guards() {
    let community = community_with_threshold(50);
    let mut p = proposal_of(ProposalType::Custom);
    let mut records = VoteRecords::new();
    assert_eq!(
        cast_vote(&mut p, key(99), &mut records, key(20), VoteType::Yes, 0, NOW, 1),
        Err(SocialChainError::InsufficientTokens)
    );
    assert_eq!(
        cast_vote(&mut p, key(99), &mut records, key(20), VoteType::Yes, 5, NOW + DURATION + 1, 1),
        Err(SocialChainError::VotingPeriodEnded)
    );
    assert_eq!(
        cast_vote(&mut p, key(99), &mut records, key(20), VoteType::Yes, 5, NOW + DURATION, 1),
        Ok(())
    );
    assert_eq!(
        cast_vote(&mut p, key(99), &mut records, key(21), VoteType::Yes, u64::MAX, NOW, 1),
        Err(SocialChainError::ArithmeticOverflow)
    );
    assert_eq!(p.yes_votes, 5);
    finalize_proposal(&mut p, &community, NOW + DURATION + 1).unwrap();
    assert_eq!(
        cast_vote(&mut p, key(99), &mut records, key(22), VoteType::Yes, 5, NOW, 1),
        Err(SocialChainError::ProposalNotActive)
    );
    assert_eq!(records.len(), 1);
}

#[test]
fn proposal_creation_checks_inputs() {
    let make = |title: &str, description: &str, data: Vec<u8>, duration: i64, now: i64| {
        create_proposal(
            key(10),
            key(11),
            title.to_string(),
            description.to_string(),
            ProposalType::ConfigChange,
            data,
            duration,
            now,
            0,
        )
    };
    let desc = "a long enough description";
    assert_eq!(make("ab", desc, vec![], 10, 0).err(), Some(SocialChainError::InvalidProposalTitle));
    assert_eq!(make(&"t".repeat(101), desc, vec![], 10, 0).err(), Some(SocialChainError::InvalidProposalTitle));
    assert_eq!(make("abc", "too short", vec![], 10, 0).err(), Some(SocialChainError::InvalidProposalDescription));
    assert_eq!(make("abc", desc, vec![], 0, 0).err(), Some(SocialChainError::InvalidVotingPeriod));
    assert_eq!(make("abc", desc, vec![], 2_592_001, 0).err(), Some(SocialChainError::InvalidVotingPeriod));
    assert_eq!(make("abc", desc, vec![0; 1025], 10, 0).err(), Some(SocialChainError::InvalidInput));
    assert_eq!(make("abc", desc, vec![], 10, i64::MAX - 5).err(), Some(SocialChainError::ArithmeticOverflow));
    let p = make("abc", desc, vec![0; 1024], 2_592_000, 7).unwrap();
    assert_eq!(p.voting_ends_at, 2_592_007);
    assert_eq!(p.created_at, 7);
    assert_eq!(p.status, ProposalStatus::Active);
    assert_eq!((p.yes_votes, p.no_votes, p.abstain_votes, p.total_voters), (0, 0, 0, 0));
    assert_eq!(p.executed_at, None);
}

#[test]
fn cancel_needs_proposer_or_admin() {
    let community = community_with_threshold(50);
    let mut p = proposal_of(ProposalType::Custom);
    assert_eq!(cancel_proposal(&mut p, &community, key(77)), Err(SocialChainError::Unauthorized));
    assert_eq!(p.status, ProposalStatus::Active);
    assert_eq!(cancel_proposal(&mut p, &community, key(1)), Ok(()));
    assert_eq!(p.status, ProposalStatus::Cancelled);
    let mut q = proposal_of(ProposalType::Custom);
    finalize_proposal(&mut q, &community, NOW + DURATION + 1).unwrap();
    assert_eq!(cancel_proposal(&mut q, &community, key(11)), Ok(()));
    assert_eq!(q.status, ProposalStatus::Cancelled);
}
