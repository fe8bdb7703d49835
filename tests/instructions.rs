use dao_voting::address::Address;
use dao_voting::error::DaoError;
use dao_voting::instructions::{
    CreateProposal, FinalizeProposal, GetMemberState, GetProposalResults, RemoveOrCleanupVote, Stake, Vote,
};
use dao_voting::member::MemberState;
use dao_voting::proposal::{Proposal, ProposalStatus, ProposalType, VoteType};
use dao_voting::setup::DaoSetup;
use dao_voting::stake::StakeState;
use dao_voting::vote::VoteState;

fn addr(b: u8) -> Address {
    Address::new([b; 32])
}

fn zero_member() -> MemberState {
    MemberState {
        address: Address::zero(),
        reward_points: 0,
        total_votes_cast: 0,
        proposals_created: 0,
        successful_proposals: 0,
        join_date: 0,
        reputation_score: 0,
        base_voting_points: 0,
        bonus_voting_points: 0,
        proposal_creation_points: 0,
        proposal_success_points: 0,
        forfeited_points: 0,
        bump: 0,
    }
}

fn zero_stake() -> StakeState {
    StakeState { owner: Address::zero(), amount: 0, accounts: 0, updated: 0, vault_bump: 0, auth_bump: 0, state_bump: 0 }
}

fn blank_proposal() -> Proposal {
    Proposal {
        id: 0,
        name: String::new(),
        gist: String::new(),
        proposal: ProposalType::Vote,
        result: ProposalStatus::Open,
        quorum: 0,
        votes: 0,
        expiry: 0,
        yes_votes: 0,
        no_votes: 0,
        abstain_votes: 0,
        bump: 0,
        proposer: Address::zero(),
    }
}

fn config() -> DaoSetup {
    DaoSetup {
        seed: 1,
        issue_price: 1,
        issue_amount: 1,
        proposal_fee: 1,
        max_supply: 1000,
        min_quorum: 10,
        max_expiry: 100,
        proposal_count: 0,
        auth_bump: 0,
        config_bump: 0,
        mint_bump: 0,
        treasury_bump: 0,
    }
}

fn staked_member(owner: Address, amount: u64) -> Stake {
    let mut s = Stake { owner, stake_state: zero_stake(), member_state: zero_member() };
    s.stake_state.init(owner, 0, 0, 0, 1).unwrap();
    s.deposit_tokens(amount, 4, 2, 1_700_000_000).unwrap();
    s
}

fn open_proposal(kind: ProposalType) -> Proposal {
    let owner = addr(1);
    let st = staked_member(owner, 100);
    let mut c = CreateProposal {
        owner,
        stake_state: st.stake_state,
        proposal: blank_proposal(),
        member_state: st.member_state,
        config: config(),
    };
    c.create_proposal(1, "fund docs".to_string(), "gist".to_string(), kind, 100, 10, 3, 0).unwrap();
    c.proposal
}

fn voter(proposal: Proposal, owner: Address, stake: u64) -> Vote {
    let st = staked_member(owner, stake);
    Vote { owner, stake_state: st.stake_state, proposal, vote: None, member_state: st.member_state }
}

#[test]
fn deposit_starts_profile_once() {
    let mut s = staked_member(addr(2), 50);
    assert_eq!(s.stake_state.amount, 50);
    assert_eq!(s.stake_state.updated, 2);
    assert_eq!(s.member_state.join_date, 1_700_000_000);
    assert_eq!(s.member_state.bump, 4);
    assert!(s.member_state.address == addr(2));
    s.member_state.reputation_score = 8;
    s.deposit_tokens(5, 9, 3, 1_800_000_000).unwrap();
    assert_eq!(s.stake_state.amount, 55);
    assert_eq!(s.member_state.join_date, 1_700_000_000);
    assert_eq!(s.member_state.reputation_score, 8);
    assert_eq!(s.deposit_tokens(u64::MAX, 9, 4, 0), Err(DaoError::Overflow));
    assert_eq!(s.stake_state.amount, 55);
}

#[test]
fn withdraw_tokens_rules() {
    let mut s = staked_member(addr(2), 50);
    assert_eq!(s.withdraw_tokens(10, 2), Err(DaoError::InvalidSlot));
    assert_eq!(s.withdraw_tokens(60, 3), Err(DaoError::Underflow));
    s.stake_state.accounts = 1;
    assert_eq!(s.withdraw_tokens(10, 3), Err(DaoError::AccountsOpen));
    s.stake_state.accounts = 0;
    assert_eq!(s.withdraw_tokens(10, 3), Ok(()));
    assert_eq!(s.stake_state.amount, 40);
}

#[test]
fn create_proposal_registers_and_rewards() {
    let owner = addr(1);
    let st = staked_member(owner, 100);
    let mut c = CreateProposal {
        owner,
        stake_state: st.stake_state,
        proposal: blank_proposal(),
        member_state: st.member_state,
        config: config(),
    };
    let kind = ProposalType::Bounty(addr(9), 25);
    assert_eq!(c.create_proposal(1, "a".to_string(), "b".to_string(), kind, 100, 10, 3, 7), Ok(()));
    assert_eq!(c.config.proposal_count, 1);
    assert_eq!(c.proposal.id, 1);
    assert_eq!(c.proposal.expiry, 17);
    assert_eq!(c.proposal.quorum, 100);
    assert_eq!(c.proposal.bump, 3);
    assert!(c.proposal.proposer == owner);
    assert!(c.proposal.proposal == kind);
    assert_eq!(c.member_state.proposal_creation_points, 50);
    assert_eq!(c.member_state.proposals_created, 1);
    assert_eq!(c.member_state.reward_points, 50);
    assert_eq!(c.member_state.reputation_score, 5);
}

#[test]
fn create_proposal_errors_change_nothing() {
    let owner = addr(1);
    let st = staked_member(owner, 100);
    let mut c = CreateProposal {
        owner,
        stake_state: st.stake_state,
        proposal: blank_proposal(),
        member_state: st.member_state,
        config: config(),
    };
    let k = ProposalType::Vote;
    assert_eq!(c.create_proposal(2, "a".to_string(), "b".to_string(), k, 100, 10, 0, 0), Err(DaoError::InvalidProposalSeed));
    assert_eq!(c.create_proposal(1, "a".to_string(), "b".to_string(), k, 9, 10, 0, 0), Err(DaoError::InvalidQuorum));
    assert_eq!(c.create_proposal(1, "a".to_string(), "b".to_string(), k, 100, 101, 0, 0), Err(DaoError::InvalidExpiry));
    assert_eq!(c.create_proposal(1, "a".repeat(33), "b".to_string(), k, 100, 10, 0, 0), Err(DaoError::InvalidName));
    assert_eq!(c.create_proposal(1, "a".to_string(), "b".repeat(73), k, 100, 10, 0, 0), Err(DaoError::InvalidGist));
    assert_eq!(c.config.proposal_count, 0);
    assert_eq!(c.member_state.reward_points, 0);
    assert_eq!(c.proposal.expiry, 0);
    c.stake_state.amount = 0;
    assert_eq!(c.create_proposal(1, "a".to_string(), "b".to_string(), k, 100, 10, 0, 0), Err(DaoError::InsufficientStake));
}

#[test]
fn vote_updates_all_records() {
    let mut v = voter(open_proposal(ProposalType::Vote), addr(5), 80);
    assert_eq!(v.vote(60, VoteType::Yes, 6, 4), Ok(()));
    assert_eq!(v.proposal.yes_votes, 60);
    assert_eq!(v.proposal.votes, 60);
    assert_eq!(v.proposal.result, ProposalStatus::Open);
    assert_eq!(v.stake_state.accounts, 1);
    let rec = v.vote.unwrap();
    assert_eq!((rec.amount, rec.vote_type, rec.bump), (60, VoteType::Yes, 6));
    assert!(rec.owner == addr(5));
    assert_eq!(v.member_state.base_voting_points, 10);
    assert_eq!(v.member_state.total_votes_cast, 1);
    assert_eq!(v.member_state.reward_points, 10);
    assert_eq!(v.member_state.reputation_score, 1);
}

#[test]
fn vote_errors() {
    let mut v = voter(open_proposal(ProposalType::Vote), addr(5), 80);
    assert_eq!(v.vote(0, VoteType::Yes, 0, 4), Err(DaoError::InvalidVoteAmount));
    assert_eq!(v.vote(81, VoteType::Yes, 0, 4), Err(DaoError::InsufficientStake));
    assert_eq!(v.vote(5, VoteType::Yes, 0, 10), Err(DaoError::Expired));
    assert_eq!(v.proposal.votes, 0);
    assert!(v.vote.is_none());
    v.proposal.result = ProposalStatus::Failed;
    assert_eq!(v.vote(5, VoteType::Yes, 0, 4), Err(DaoError::InvalidProposalStatus));
    assert_eq!(v.stake_state.accounts, 0);
    assert_eq!(v.member_state.reward_points, 0);
}

#[test]
fn second_vote_is_refused() {
    let mut v = voter(open_proposal(ProposalType::Vote), addr(5), 80);
    v.vote(10, VoteType::No, 0, 4).unwrap();
    assert_eq!(v.vote(10, VoteType::No, 0, 4), Err(DaoError::AlreadyExists));
    assert_eq!(v.proposal.no_votes, 10);
    v.proposal.result = ProposalStatus::Succeeded;
    assert_eq!(v.vote(1, VoteType::Yes, 0, 50), Err(DaoError::AlreadyExists));
    assert_eq!(v.stake_state.accounts, 1);
}

#[test]
fn remove_vote_reverses_tally_and_slashes() {
    let mut v = voter(open_proposal(ProposalType::Vote), addr(5), 80);
    v.vote(30, VoteType::Abstain, 0, 4).unwrap();
    let mut r = RemoveOrCleanupVote {
        stake_state: v.stake_state,
        proposal: v.proposal,
        vote: v.vote.unwrap(),
        member_state: v.member_state,
    };
    assert_eq!(r.remove_vote(5), Ok(()));
    assert_eq!((r.proposal.votes, r.proposal.abstain_votes), (0, 0));
    assert_eq!(r.stake_state.accounts, 0);
    assert_eq!(r.member_state.base_voting_points, 0);
    assert_eq!(r.member_state.forfeited_points, 0);
    assert_eq!(r.member_state.reward_points, 0);
    assert_eq!(r.member_state.reputation_score, 0);
    assert_eq!(r.remove_vote(5), Err(DaoError::Underflow));
}

#[test]
fn remove_vote_only_while_running() {
    let mut v = voter(open_proposal(ProposalType::Vote), addr(5), 80);
    v.vote(30, VoteType::Yes, 0, 4).unwrap();
    let mut r = RemoveOrCleanupVote {
        stake_state: v.stake_state,
        proposal: v.proposal,
        vote: v.vote.unwrap(),
        member_state: v.member_state,
    };
    assert_eq!(r.remove_vote(10), Err(DaoError::Expired));
    assert_eq!(r.cleanup_vote(9), Err(DaoError::InvalidProposalStatus));
    r.proposal.result = ProposalStatus::Failed;
    assert_eq!(r.remove_vote(5), Err(DaoError::InvalidProposalStatus));
    assert_eq!(r.proposal.votes, 30);
    assert_eq!(r.cleanup_vote(5), Ok(()));
    assert_eq!(r.stake_state.accounts, 0);
    assert_eq!(r.proposal.yes_votes, 30);
    assert_eq!(r.cleanup_vote(5), Err(DaoError::Underflow));
}

#[test]
fn cleanup_after_expiry_releases_stake() {
    let mut v = voter(open_proposal(ProposalType::Vote), addr(5), 80);
    v.vote(30, VoteType::Yes, 0, 4).unwrap();
    let mut r = RemoveOrCleanupVote {
        stake_state: v.stake_state,
        proposal: v.proposal,
        vote: v.vote.unwrap(),
        member_state: v.member_state,
    };
    assert_eq!(r.cleanup_vote(10), Ok(()));
    assert_eq!(r.stake_state.accounts, 0);
    assert_eq!(r.member_state.reward_points, 10);
}

#[test]
fn execute_bounty_pays_named_target() {
    let mut v = voter(open_proposal(ProposalType::Bounty(addr(9), 25)), addr(5), 200);
    v.vote(120, VoteType::Yes, 0, 4).unwrap();
    assert_eq!(v.proposal.result, ProposalStatus::Succeeded);
    let mut f = FinalizeProposal { payee: addr(8), proposal: v.proposal.clone(), proposer_state: zero_member() };
    assert_eq!(f.execute_proposal(5), Err(DaoError::PayeeMismatch));
    assert_eq!(f.proposer_state.reward_points, 0);
    f.payee = addr(9);
    let payout = f.execute_proposal(5).unwrap().unwrap();
    assert!(payout.payee == addr(9));
    assert_eq!(payout.amount, 25);
    assert_eq!(f.proposer_state.proposal_success_points, 100);
    assert_eq!(f.proposer_state.successful_proposals, 1);
    assert_eq!(f.proposer_state.reward_points, 100);
    assert_eq!(f.proposer_state.reputation_score, 20);
    assert_eq!(f.cleanup_proposal(5), Err(DaoError::InvalidProposalStatus));
}

#[test]
fn execute_poll_and_stub_pay_nothing() {
    for kind in [ProposalType::Vote, ProposalType::Executable] {
        let mut v = voter(open_proposal(kind), addr(5), 200);
        v.vote(120, VoteType::Yes, 0, 4).unwrap();
        let mut f = FinalizeProposal { payee: addr(8), proposal: v.proposal.clone(), proposer_state: zero_member() };
        assert!(f.execute_proposal(5).unwrap().is_none());
        assert_eq!(f.finalize_vote(), Ok(()));
        assert_eq!(f.execute_tx(), Ok(()));
    }
}

#[test]
fn execute_needs_success_cleanup_needs_failure() {
    let p = open_proposal(ProposalType::Vote);
    let mut f = FinalizeProposal { payee: addr(8), proposal: p, proposer_state: zero_member() };
    assert_eq!(f.execute_proposal(5), Err(DaoError::InvalidProposalStatus));
    assert_eq!(f.cleanup_proposal(5), Err(DaoError::InvalidProposalStatus));
    assert_eq!(f.proposal.result, ProposalStatus::Open);
    assert_eq!(f.execute_proposal(10), Err(DaoError::InvalidProposalStatus));
    assert_eq!(f.proposal.result, ProposalStatus::Open);
    assert_eq!(f.cleanup_proposal(10), Ok(()));
    assert_eq!(f.proposal.result, ProposalStatus::Failed);
}

#[test]
fn payout_bounty_checks_target() {
    let f = FinalizeProposal { payee: addr(8), proposal: blank_proposal(), proposer_state: zero_member() };
    assert_eq!(f.payout_bounty(addr(7), 3).err(), Some(DaoError::PayeeMismatch));
    let p = f.payout_bounty(addr(8), 3).unwrap();
    assert_eq!(p.amount, 3);
    assert!(p.payee == addr(8));
}

#[test]
fn results_query_finalizes_expired() {
    let mut v = voter(open_proposal(ProposalType::Vote), addr(5), 200);
    v.vote(30, VoteType::Yes, 0, 4).unwrap();
    let mut q = GetProposalResults { proposal: v.proposal };
    let r = q.get_results(9).unwrap();
    assert_eq!(r.status, ProposalStatus::Open);
    assert_eq!((r.yes_votes, r.total_votes, r.quorum), (30, 30, 100));
    let r = q.get_results(10).unwrap();
    assert_eq!(r.status, ProposalStatus::Failed);
    assert_eq!(q.proposal.result, ProposalStatus::Failed);
}

#[test]
fn member_query_reports_profile() {
    let st = staked_member(addr(2), 5);
    let q = GetMemberState { member_state: st.member_state };
    let v = q.get_member_state().unwrap();
    assert_eq!(v.join_date, 1_700_000_000);
    assert!(v.address == addr(2));
}

#[test]
fn vote_record_init() {
    let mut r = VoteState { owner: Address::zero(), amount: 0, vote_type: VoteType::No, bump: 0 };
    r.init(addr(3), 12, VoteType::Abstain, 4).unwrap();
    assert!(r.owner == addr(3));
    assert_eq!((r.amount, r.vote_type, r.bump), (12, VoteType::Abstain, 4));
}
