//! Properties that hold across calls, each proved from the contracts of the
//! operations it speaks of.
use vstd::prelude::*;

use crate::error::DaoError;
use crate::instructions::Vote;
use crate::member::MemberState;
use crate::proposal::{tally_of, with_tally, Proposal, ProposalStatus, VoteType};
use crate::setup::DaoSetup;
use crate::stake::StakeState;

verus! {

/// The configuration after registering `ids` in order with `add_proposal`,
/// or `None` if one of the registrations fails.
pub open spec fn register_all(s: DaoSetup, ids: Seq<u64>) -> Option<DaoSetup>
    decreases ids.len(),
{
    if ids.len() == 0 {
        Some(s)
    } else {
        match register_all(s, ids.drop_last()) {
            Some(t) => if t.add_proposal_outcome(ids.last()) is Ok {
                Some(DaoSetup { proposal_count: ids.last(), ..t })
            } else {
                None
            },
            None => None,
        }
    }
}

/// Proposal ids are handed out without gaps or repeats: when a sequence of
/// registrations all succeed, the `i`-th id is the counter's starting value
/// plus `i + 1`, and the counter ends at its start plus the number of ids.
pub proof fn lemma_ids_consecutive(s: DaoSetup, ids: Seq<u64>)
    requires
        register_all(s, ids) is Some,
    ensures
        forall|i: int| 0 <= i < ids.len() ==> ids[i] == s.proposal_count + i + 1,
        register_all(s, ids)->0.proposal_count == s.proposal_count + ids.len(),
        register_all(s, ids)->0 == (DaoSetup { proposal_count: register_all(s, ids)->0.proposal_count, ..s }),
    decreases ids.len(),
{
    if ids.len() > 0 {
        lemma_ids_consecutive(s, ids.drop_last());
        let prefix = ids.drop_last();
        assert forall|i: int| 0 <= i < ids.len() implies ids[i] == s.proposal_count + i + 1 by {
            if i < ids.len() - 1 {
                assert(ids[i] == prefix[i]);
            }
        }
    }
}

/// Registering any id other than the counter's next value fails.
pub proof fn lemma_wrong_id_refused(s: DaoSetup, id: u64)
    requires
        id != s.proposal_count + 1,
    ensures
        s.add_proposal_outcome(id) is Err,
{
}

/// One change to a proposal's tallies: a vote cast (`cast`) or retracted,
/// of `amount` on `vote_type`, at tick `now_slot`.
pub struct TallyStep {
    pub cast: bool,
    pub amount: u64,
    pub vote_type: VoteType,
    pub now_slot: u64,
}

/// The proposal after one step as `add_vote` or `remove_vote` leaves it, or
/// `None` if the call fails.
pub open spec fn apply_tally_step(p: Proposal, step: TallyStep) -> Option<Proposal> {
    if step.cast {
        if p.add_vote_outcome(step.amount, step.vote_type) is Ok {
            Some(
                with_tally(
                    p,
                    step.vote_type,
                    (p.votes + step.amount) as u64,
                    (tally_of(p, step.vote_type) + step.amount) as u64,
                ).finalized(step.now_slot),
            )
        } else {
            None
        }
    } else if p.remove_vote_outcome(step.amount, step.vote_type) is Ok {
        Some(
            with_tally(
                p,
                step.vote_type,
                (p.votes - step.amount) as u64,
                (tally_of(p, step.vote_type) - step.amount) as u64,
            ),
        )
    } else {
        None
    }
}

/// The proposal after the steps in order, or `None` if one fails.
pub open spec fn apply_tally_steps(p: Proposal, steps: Seq<TallyStep>) -> Option<Proposal>
    decreases steps.len(),
{
    if steps.len() == 0 {
        Some(p)
    } else {
        match apply_tally_steps(p, steps.drop_last()) {
            Some(q) => apply_tally_step(q, steps.last()),
            None => None,
        }
    }
}

/// The total of a proposal equals yes plus no plus abstain after any
/// sequence of casts and retractions that each succeed.
pub proof fn lemma_tally_conservation(p: Proposal, steps: Seq<TallyStep>)
    requires
        p.wf(),
        apply_tally_steps(p, steps) is Some,
    ensures
        apply_tally_steps(p, steps)->0.wf(),
    decreases steps.len(),
{
    if steps.len() > 0 {
        lemma_tally_conservation(p, steps.drop_last());
    }
}

/// Finalizing twice at the same tick gives what finalizing once gives: the
/// second call changes no field.
pub proof fn lemma_finalize_idempotent(p: Proposal, now_slot: u64)
    ensures
        p.finalized(now_slot).finalized(now_slot) == p.finalized(now_slot),
{
}

/// A final status is never left: once finalizing gives `Succeeded` or
/// `Failed`, finalizing again at any later tick changes nothing.
pub proof fn lemma_final_status_kept(p: Proposal, t1: u64, t2: u64)
    requires
        p.finalized_status(t1) != ProposalStatus::Open,
    ensures
        p.finalized(t1).finalized(t2) == p.finalized(t1),
{
}

/// One crediting or debiting step on a member's profile.
pub enum PointStep {
    VotePoints(u64),
    BonusPoints(u64),
    CreationPoints(u64),
    SuccessPoints(u64),
    Slash(u64),
    Reputation(i64),
}

/// The profile after one step as the matching method leaves it, or `None`
/// if the call fails.
pub open spec fn apply_point_step(m: MemberState, step: PointStep) -> Option<MemberState> {
    match step {
        PointStep::VotePoints(p) => if m.vote_points_fit(p) {
            Some(m.with_vote_points(p))
        } else {
            None
        },
        PointStep::BonusPoints(p) => if m.bonus_points_fit(p) {
            Some(m.with_bonus_points(p))
        } else {
            None
        },
        PointStep::CreationPoints(p) => if m.proposal_points_fit(p) {
            Some(m.with_proposal_points(p))
        } else {
            None
        },
        PointStep::SuccessPoints(p) => if m.success_points_fit(p) {
            Some(m.with_success_points(p))
        } else {
            None
        },
        PointStep::Slash(k) => if m.slash_fits(k) {
            Some(m.slashed(k))
        } else {
            None
        },
        PointStep::Reputation(c) => Some(m.with_reputation(c)),
    }
}

/// The profile after the steps in order, or `None` if one fails.
pub open spec fn apply_point_steps(m: MemberState, steps: Seq<PointStep>) -> Option<MemberState>
    decreases steps.len(),
{
    if steps.len() == 0 {
        Some(m)
    } else {
        match apply_point_steps(m, steps.drop_last()) {
            Some(q) => apply_point_step(q, steps.last()),
            None => None,
        }
    }
}

/// After any sequence of point operations that each succeed, the reward
/// points are exactly base plus bonus plus creation plus success points.
pub proof fn lemma_reward_identity(m: MemberState, steps: Seq<PointStep>)
    requires
        m.wf(),
        apply_point_steps(m, steps) is Some,
    ensures
        apply_point_steps(m, steps)->0.wf(),
        apply_point_steps(m, steps)->0.reward_points as int == apply_point_steps(m, steps)->0.base_voting_points
            + apply_point_steps(m, steps)->0.bonus_voting_points + apply_point_steps(m, steps)->0.proposal_creation_points
            + apply_point_steps(m, steps)->0.proposal_success_points,
    decreases steps.len(),
{
    if steps.len() > 0 {
        lemma_reward_identity(m, steps.drop_last());
    }
}

/// Taking `k` points from a profile with `b < k` base points leaves no base
/// points and adds exactly `k - b` to the forfeited points; with `b >= k`
/// the forfeited points do not change. On a consistent profile the
/// deduction always succeeds.
pub proof fn lemma_forfeiture_conservation(m: MemberState, k: u64)
    requires
        m.wf(),
        m.forfeited_points + k <= u64::MAX,
    ensures
        m.slash_fits(k),
        m.base_voting_points < k ==> m.slashed(k).base_voting_points == 0 && m.slashed(k).forfeited_points
            == m.forfeited_points + (k - m.base_voting_points),
        m.base_voting_points >= k ==> m.slashed(k).forfeited_points == m.forfeited_points,
{
}

/// While a stake backs an open vote record, any withdrawal of any amount at
/// any tick fails with `AccountsOpen`.
pub proof fn lemma_withdraw_blocked_by_open_votes(s: StakeState, amount: u64, now_slot: u64)
    requires
        s.accounts > 0,
    ensures
        s.unstake_outcome(amount, now_slot) == Err::<(), DaoError>(DaoError::AccountsOpen),
{
}

/// Once a vote record exists under a member's key for a proposal, a second
/// vote by that member on that proposal fails with `AlreadyExists`, whatever
/// the proposal's status.
pub proof fn lemma_no_double_vote(v: Vote, amount: u64, vote_type: VoteType, now_slot: u64)
    requires
        v.vote is Some,
    ensures
        v.vote_outcome(amount, vote_type, now_slot) == Err::<(), DaoError>(DaoError::AlreadyExists),
{
}

/// After a vote succeeds, every further vote on the same records fails with
/// `AlreadyExists`, whatever its amount, choice or tick.
pub proof fn lemma_vote_once(
    v: Vote,
    amount: u64,
    vote_type: VoteType,
    bump: u8,
    now_slot: u64,
    amount2: u64,
    vote_type2: VoteType,
    now_slot2: u64,
)
    requires
        v.vote_outcome(amount, vote_type, now_slot) is Ok,
    ensures
        v.voted(amount, vote_type, bump, now_slot).vote_outcome(amount2, vote_type2, now_slot2)
            == Err::<(), DaoError>(DaoError::AlreadyExists),
{
}

} // verus!
