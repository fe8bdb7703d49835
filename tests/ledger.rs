use dao_voting::address::Address;
use dao_voting::error::DaoError;
use dao_voting::member::MemberState;
use dao_voting::stake::StakeState;
use dao_voting::vote::VoteTally;

fn addr(b: u8) -> Address {
    Address::new([b; 32])
}

fn member() -> MemberState {
    let mut m = MemberState {
        address: Address::zero(),
        reward_points: 9,
        total_votes_cast: 9,
        proposals_created: 9,
        successful_proposals: 9,
        join_date: 0,
        reputation_score: 9,
        base_voting_points: 9,
        bonus_voting_points: 9,
        proposal_creation_points: 9,
        proposal_success_points: 9,
        forfeited_points: 9,
        bump: 0,
    };
    m.init(addr(3), 1, 1_700_000_000).unwrap();
    m
}

fn stake_state() -> StakeState {
    let mut s = StakeState {
        owner: Address::zero(),
        amount: 5,
        accounts: 5,
        updated: 5,
        vault_bump: 0,
        auth_bump: 0,
        state_bump: 0,
    };
    s.init(addr(4), 1, 2, 3, 100).unwrap();
    s
}

fn reward_identity(m: &MemberState) -> bool {
    m.reward_points
        == m.base_voting_points
            + m.bonus_voting_points
            + m.proposal_creation_points
            + m.proposal_success_points
}

#[test]
fn member_init_zeroes_everything() {
    let m = member();
    assert_eq!(m.reward_points, 0);
    assert_eq!(m.forfeited_points, 0);
    assert_eq!(m.reputation_score, 0);
    assert_eq!(m.join_date, 1_700_000_000);
    assert!(m.address == addr(3));
}

#[test]
fn reward_points_follow_every_credit() {
    let mut m = member();
    m.add_vote_points(10).unwrap();
    assert!(reward_identity(&m));
    m.add_vote_bonus(5).unwrap();
    assert!(reward_identity(&m));
    m.add_proposal_points(50).unwrap();
    assert!(reward_identity(&m));
    m.add_proposal_success_points(100).unwrap();
    assert!(reward_identity(&m));
    m.slash_vote_points(4).unwrap();
    assert!(reward_identity(&m));
    assert_eq!(m.reward_points, 161);
    assert_eq!(m.total_votes_cast, 1);
    assert_eq!(m.proposals_created, 1);
    assert_eq!(m.successful_proposals, 1);
}

#[test]
fn update_reward_points_recomputes() {
    let mut m = member();
    m.base_voting_points = 3;
    m.bonus_voting_points = 4;
    m.reward_points = 1000;
    assert_eq!(m.update_reward_points(), Ok(()));
    assert_eq!(m.reward_points, 7);
    m.proposal_success_points = u64::MAX;
    assert_eq!(m.update_reward_points(), Err(DaoError::Overflow));
    assert_eq!(m.reward_points, 7);
}

#[test]
fn credit_overflow_changes_nothing() {
    let mut m = member();
    m.add_proposal_success_points(u64::MAX - 5).unwrap();
    let before = m;
    assert_eq!(m.add_vote_points(10), Err(DaoError::Overflow));
    assert_eq!(m.base_voting_points, before.base_voting_points);
    assert_eq!(m.total_votes_cast, before.total_votes_cast);
    assert_eq!(m.reward_points, before.reward_points);
    assert_eq!(m.add_vote_bonus(6), Err(DaoError::Overflow));
    assert_eq!(m.add_proposal_points(6), Err(DaoError::Overflow));
    assert_eq!(m.add_vote_bonus(5), Ok(()));
    assert_eq!(m.reward_points, u64::MAX);
}

#[test]
fn slash_shortfall_is_forfeited() {
    let mut m = member();
    m.add_vote_points(3).unwrap();
    m.slash_vote_points(10).unwrap();
    assert_eq!(m.base_voting_points, 0);
    assert_eq!(m.forfeited_points, 7);
    assert_eq!(m.reward_points, 0);
}

#[test]
fn slash_within_base_forfeits_nothing() {
    let mut m = member();
    m.add_vote_points(30).unwrap();
    m.slash_vote_points(10).unwrap();
    assert_eq!(m.base_voting_points, 20);
    assert_eq!(m.forfeited_points, 0);
    m.slash_vote_points(20).unwrap();
    assert_eq!(m.base_voting_points, 0);
    assert_eq!(m.forfeited_points, 0);
}

#[test]
fn forfeiture_saturates() {
    let mut m = member();
    m.forfeited_points = u64::MAX - 1;
    m.slash_vote_points(10).unwrap();
    assert_eq!(m.forfeited_points, u64::MAX);
}

#[test]
fn reputation_saturates_both_ways() {
    let mut m = member();
    m.update_reputation(5).unwrap();
    assert_eq!(m.reputation_score, 5);
    m.update_reputation(-2).unwrap();
    assert_eq!(m.reputation_score, 3);
    m.update_reputation(-10).unwrap();
    assert_eq!(m.reputation_score, 0);
    m.update_reputation(i64::MIN).unwrap();
    assert_eq!(m.reputation_score, 0);
    m.reputation_score = u64::MAX - 1;
    m.update_reputation(i64::MAX).unwrap();
    assert_eq!(m.reputation_score, u64::MAX);
    m.update_reputation(i64::MIN).unwrap();
    assert_eq!(m.reputation_score, u64::MAX - (1u64 << 63));
}

#[test]
fn member_view_copies_fields() {
    let mut m = member();
    m.add_vote_points(10).unwrap();
    m.update_reputation(1).unwrap();
    let v = m.get_member_state();
    assert_eq!(v.reward_points, 10);
    assert_eq!(v.total_votes_cast, 1);
    assert_eq!(v.reputation_score, 1);
    assert_eq!(v.join_date, 1_700_000_000);
    assert!(v.address == addr(3));
}

#[test]
fn stake_init_and_deposit() {
    let mut s = stake_state();
    assert_eq!((s.amount, s.accounts, s.updated), (0, 0, 100));
    assert_eq!((s.state_bump, s.vault_bump, s.auth_bump), (1, 2, 3));
    assert_eq!(s.stake(40, 101), Ok(()));
    assert_eq!((s.amount, s.updated), (40, 101));
    assert_eq!(s.stake(u64::MAX, 102), Err(DaoError::Overflow));
    assert_eq!((s.amount, s.updated), (40, 101));
}

#[test]
fn withdraw_blocked_while_votes_open() {
    for amount in [0u64, 1, 40, u64::MAX] {
        let mut s = stake_state();
        s.stake(40, 101).unwrap();
        s.add_account().unwrap();
        assert_eq!(s.unstake(amount, 200), Err(DaoError::AccountsOpen));
        assert_eq!(s.amount, 40);
    }
}

#[test]
fn withdraw_same_tick_refused() {
    let mut s = stake_state();
    s.stake(40, 101).unwrap();
    assert_eq!(s.unstake(10, 101), Err(DaoError::InvalidSlot));
    assert_eq!(s.unstake(10, 100), Err(DaoError::InvalidSlot));
    assert_eq!(s.unstake(41, 102), Err(DaoError::Underflow));
    assert_eq!(s.unstake(10, 102), Ok(()));
    assert_eq!((s.amount, s.updated), (30, 102));
}

#[test]
fn open_record_count() {
    let mut s = stake_state();
    assert_eq!(s.remove_account(), Err(DaoError::Underflow));
    s.add_account().unwrap();
    s.add_account().unwrap();
    assert_eq!(s.accounts, 2);
    assert_eq!(s.check_accounts(), Err(DaoError::AccountsOpen));
    s.remove_account().unwrap();
    s.remove_account().unwrap();
    assert_eq!(s.check_accounts(), Ok(()));
    s.accounts = u64::MAX;
    assert_eq!(s.add_account(), Err(DaoError::Overflow));
}

#[test]
fn stake_guards() {
    let mut s = stake_state();
    assert_eq!(s.check_stake(), Err(DaoError::InsufficientStake));
    s.stake(10, 101).unwrap();
    assert_eq!(s.check_stake(), Ok(()));
    assert_eq!(s.check_stake_amount(10), Ok(()));
    assert_eq!(s.check_stake_amount(11), Err(DaoError::InsufficientStake));
    assert_eq!(s.check_slot(101), Err(DaoError::InvalidSlot));
    assert_eq!(s.check_slot(102), Ok(()));
    s.update(300).unwrap();
    assert_eq!(s.updated, 300);
}

#[test]
fn tally_counts() {
    let mut t = VoteTally { proposal_id: 9, yes_votes: 9, no_votes: 9, abstain_votes: 9, bump: 9 };
    t.init(4, 2).unwrap();
    assert_eq!(t, VoteTally { proposal_id: 4, yes_votes: 0, no_votes: 0, abstain_votes: 0, bump: 2 });
    t.add_votes(3, 2, 1).unwrap();
    assert_eq!(t.total_votes(), 6);
    assert!(t.has_passed());
    assert_eq!(t.remove_votes(0, 3, 0), Err(DaoError::Underflow));
    assert_eq!(t.no_votes, 2);
    t.remove_votes(3, 0, 0).unwrap();
    assert!(!t.has_passed());
    assert_eq!(t.add_votes(0, u64::MAX, 0), Err(DaoError::Overflow));
    t.add_votes(u64::MAX, 0, 0).unwrap();
    assert_eq!(t.total_votes(), u64::MAX);
}

#[test]
fn address_equality() {
    let mut b = [7u8; 32];
    assert!(Address::new(b) == Address::new(b));
    b[31] = 8;
    assert!(Address::new(b) != Address::new([7u8; 32]));
    assert!(Address::zero() == Address::new([0u8; 32]));
}
