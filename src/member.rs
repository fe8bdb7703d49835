use vstd::prelude::*;

use crate::address::Address;
use crate::error::DaoError;

verus! {

/// The sum of four point counters, as a mathematical integer.
pub open spec fn points_sum(base: u64, bonus: u64, creation: u64, success: u64) -> int {
    base as int + bonus as int + creation as int + success as int
}

/// `v` held to the range of `u64`.
pub open spec fn clamp_u64(v: int) -> u64 {
    if v < 0 {
        0
    } else if v > u64::MAX {
        u64::MAX
    } else {
        v as u64
    }
}

/// A member's reward points and reputation.
#[derive(Clone, Copy, Debug)]
pub struct MemberState {
    pub address: Address,
    /// Always the sum of the four point counters below it.
    pub reward_points: u64,
    pub total_votes_cast: u64,
    pub proposals_created: u64,
    pub successful_proposals: u64,
    /// Wall time at which the member joined; zero until then.
    pub join_date: i64,
    pub reputation_score: u64,
    pub base_voting_points: u64,
    pub bonus_voting_points: u64,
    pub proposal_creation_points: u64,
    pub proposal_success_points: u64,
    /// Deductions that were asked for beyond the base points left.
    pub forfeited_points: u64,
    pub bump: u8,
}

/// A read-only copy of a member's fields.
#[derive(Clone, Copy, Debug)]
pub struct MemberStateView {
    pub address: Address,
    pub reward_points: u64,
    pub total_votes_cast: u64,
    pub proposals_created: u64,
    pub successful_proposals: u64,
    pub join_date: i64,
    pub reputation_score: u64,
    pub base_voting_points: u64,
    pub bonus_voting_points: u64,
    pub proposal_creation_points: u64,
    pub proposal_success_points: u64,
    pub forfeited_points: u64,
}

impl MemberState {
    /// The sum that `reward_points` must hold.
    pub open spec fn points_total(self) -> int {
        points_sum(
            self.base_voting_points,
            self.bonus_voting_points,
            self.proposal_creation_points,
            self.proposal_success_points,
        )
    }

    /// The reward points equal the sum of their parts.
    pub open spec fn wf(self) -> bool {
        self.reward_points as int == self.points_total()
    }

    /// A new profile: every counter at zero, joined at `now_unix`.
    pub open spec fn fresh(address: Address, bump: u8, now_unix: i64) -> MemberState {
        MemberState {
            address,
            reward_points: 0,
            total_votes_cast: 0,
            proposals_created: 0,
            successful_proposals: 0,
            join_date: now_unix,
            reputation_score: 0,
            base_voting_points: 0,
            bonus_voting_points: 0,
            proposal_creation_points: 0,
            proposal_success_points: 0,
            forfeited_points: 0,
            bump,
        }
    }

    /// Crediting `p` base voting points and one vote cast fits every counter.
    pub open spec fn vote_points_fit(self, p: u64) -> bool {
        &&& self.base_voting_points + p <= u64::MAX
        &&& self.total_votes_cast + 1 <= u64::MAX
        &&& self.points_total() + p <= u64::MAX
    }

    /// The profile after `p` base voting points and one vote cast.
    pub open spec fn with_vote_points(self, p: u64) -> MemberState {
        MemberState {
            base_voting_points: (self.base_voting_points + p) as u64,
            total_votes_cast: (self.total_votes_cast + 1) as u64,
            reward_points: (self.points_total() + p) as u64,
            ..self
        }
    }

    /// Crediting `p` bonus voting points fits every counter.
    pub open spec fn bonus_points_fit(self, p: u64) -> bool {
        &&& self.bonus_voting_points + p <= u64::MAX
        &&& self.points_total() + p <= u64::MAX
    }

    /// The profile after `p` bonus voting points.
    pub open spec fn with_bonus_points(self, p: u64) -> MemberState {
        MemberState {
            bonus_voting_points: (self.bonus_voting_points + p) as u64,
            reward_points: (self.points_total() + p) as u64,
            ..self
        }
    }

    /// Crediting `p` creation points and one proposal fits every counter.
    pub open spec fn proposal_points_fit(self, p: u64) -> bool {
        &&& self.proposal_creation_points + p <= u64::MAX
        &&& self.proposals_created + 1 <= u64::MAX
        &&& self.points_total() + p <= u64::MAX
    }

    /// The profile after `p` creation points and one proposal created.
    pub open spec fn with_proposal_points(self, p: u64) -> MemberState {
        MemberState {
            proposal_creation_points: (self.proposal_creation_points + p) as u64,
            proposals_created: (self.proposals_created + 1) as u64,
            reward_points: (self.points_total() + p) as u64,
            ..self
        }
    }

    /// Crediting `p` success points and one successful proposal fits every
    /// counter.
    pub open spec fn success_points_fit(self, p: u64) -> bool {
        &&& self.proposal_success_points + p <= u64::MAX
        &&& self.successful_proposals + 1 <= u64::MAX
        &&& self.points_total() + p <= u64::MAX
    }

    /// The profile after `p` success points and one successful proposal.
    pub open spec fn with_success_points(self, p: u64) -> MemberState {
        MemberState {
            proposal_success_points: (self.proposal_success_points + p) as u64,
            successful_proposals: (self.successful_proposals + 1) as u64,
            reward_points: (self.points_total() + p) as u64,
            ..self
        }
    }

    /// The profile with its reputation moved by `change`, held to `u64`.
    pub open spec fn with_reputation(self, change: i64) -> MemberState {
        MemberState { reputation_score: clamp_u64(self.reputation_score + change), ..self }
    }

    /// The base voting points left after taking `k`.
    pub open spec fn slashed_base(self, k: u64) -> u64 {
        if self.base_voting_points >= k {
            (self.base_voting_points - k) as u64
        } else {
            0
        }
    }

    /// The forfeited points after taking `k`: the shortfall is added, held
    /// to `u64`.
    pub open spec fn slashed_forfeit(self, k: u64) -> u64 {
        if self.base_voting_points >= k {
            self.forfeited_points
        } else {
            clamp_u64(self.forfeited_points + (k - self.base_voting_points))
        }
    }

    /// The reward total after taking `k`.
    pub open spec fn slashed_total(self, k: u64) -> int {
        points_sum(
            self.slashed_base(k),
            self.bonus_voting_points,
            self.proposal_creation_points,
            self.proposal_success_points,
        )
    }

    /// The recomputed reward total after taking `k` fits.
    pub open spec fn slash_fits(self, k: u64) -> bool {
        self.slashed_total(k) <= u64::MAX
    }

    /// The profile after taking `k` base voting points.
    pub open spec fn slashed(self, k: u64) -> MemberState {
        MemberState {
            base_voting_points: self.slashed_base(k),
            forfeited_points: self.slashed_forfeit(k),
            reward_points: self.slashed_total(k) as u64,
            ..self
        }
    }

    /// Starts the profile of `address`: every counter at zero, joined at
    /// wall time `now_unix`.
    pub fn init(&mut self, address: Address, bump: u8, now_unix: i64) -> (r: Result<(), DaoError>)
        ensures
            r is Ok,
            *final(self) == MemberState::fresh(address, bump, now_unix),
            final(self).wf(),
    {
        self.address = address;
        self.reward_points = 0;
        self.total_votes_cast = 0;
        self.proposals_created = 0;
        self.successful_proposals = 0;
        self.join_date = now_unix;
        self.reputation_score = 0;
        self.base_voting_points = 0;
        self.bonus_voting_points = 0;
        self.proposal_creation_points = 0;
        self.proposal_success_points = 0;
        self.forfeited_points = 0;
        self.bump = bump;
        Ok(())
    }

    /// Credits `base_points` for a vote cast and counts the vote.
    pub fn add_vote_points(&mut self, base_points: u64) -> (r: Result<(), DaoError>)
        ensures
            r is Ok <==> old(self).vote_points_fit(base_points),
            r is Ok ==> *final(self) == old(self).with_vote_points(base_points),
            r is Ok ==> final(self).wf(),
            r is Err ==> r == Err::<(), DaoError>(DaoError::Overflow) && *final(self) == *old(self),
    {
        let base = match self.base_voting_points.checked_add(base_points) {
            Some(v) => v,
            None => return Err(DaoError::Overflow),
        };
        let votes = match self.total_votes_cast.checked_add(1) {
            Some(v) => v,
            None => return Err(DaoError::Overflow),
        };
        let reward = match reward_sum(base, self.bonus_voting_points, self.proposal_creation_points, self.proposal_success_points) {
            Some(v) => v,
            None => return Err(DaoError::Overflow),
        };
        self.base_voting_points = base;
        self.total_votes_cast = votes;
        self.reward_points = reward;
        Ok(())
    }

    /// Credits `bonus_points` of bonus voting points.
    pub fn add_vote_bonus(&mut self, bonus_points: u64) -> (r: Result<(), DaoError>)
        ensures
            r is Ok <==> old(self).bonus_points_fit(bonus_points),
            r is Ok ==> *final(self) == old(self).with_bonus_points(bonus_points),
            r is Ok ==> final(self).wf(),
            r is Err ==> r == Err::<(), DaoError>(DaoError::Overflow) && *final(self) == *old(self),
    {
        let bonus = match self.bonus_voting_points.checked_add(bonus_points) {
            Some(v) => v,
            None => return Err(DaoError::Overflow),
        };
        let reward = match reward_sum(self.base_voting_points, bonus, self.proposal_creation_points, self.proposal_success_points) {
            Some(v) => v,
            None => return Err(DaoError::Overflow),
        };
        self.bonus_voting_points = bonus;
        self.reward_points = reward;
        Ok(())
    }

    /// Credits `points` for a proposal created and counts the proposal.
    pub fn add_proposal_points(&mut self, points: u64) -> (r: Result<(), DaoError>)
        ensures
            r is Ok <==> old(self).proposal_points_fit(points),
            r is Ok ==> *final(self) == old(self).with_proposal_points(points),
            r is Ok ==> final(self).wf(),
            r is Err ==> r == Err::<(), DaoError>(DaoError::Overflow) && *final(self) == *old(self),
    {
        let creation = match self.proposal_creation_points.checked_add(points) {
            Some(v) => v,
            None => return Err(DaoError::Overflow),
        };
        let created = match self.proposals_created.checked_add(1) {
            Some(v) => v,
            None => return Err(DaoError::Overflow),
        };
        let reward = match reward_sum(self.base_voting_points, self.bonus_voting_points, creation, self.proposal_success_points) {
            Some(v) => v,
            None => return Err(DaoError::Overflow),
        };
        self.proposal_creation_points = creation;
        self.proposals_created = created;
        self.reward_points = reward;
        Ok(())
    }

    /// Credits `points` for a proposal that succeeded and counts it.
    pub fn add_proposal_success_points(&mut self, points: u64) -> (r: Result<(), DaoError>)
        ensures
            r is Ok <==> old(self).success_points_fit(points),
            r is Ok ==> *final(self) == old(self).with_success_points(points),
            r is Ok ==> final(self).wf(),
            r is Err ==> r == Err::<(), DaoError>(DaoError::Overflow) && *final(self) == *old(self),
    {
        let success = match self.proposal_success_points.checked_add(points) {
            Some(v) => v,
            None => return Err(DaoError::Overflow),
        };
        let successes = match self.successful_proposals.checked_add(1) {
            Some(v) => v,
            None => return Err(DaoError::Overflow),
        };
        let reward = match reward_sum(self.base_voting_points, self.bonus_voting_points, self.proposal_creation_points, success) {
            Some(v) => v,
            None => return Err(DaoError::Overflow),
        };
        self.proposal_success_points = success;
        self.successful_proposals = successes;
        self.reward_points = reward;
        Ok(())
    }

    /// Recomputes `reward_points` from its parts; fails with `Overflow`,
    /// changing nothing, when the sum does not fit.
    pub fn update_reward_points(&mut self) -> (r: Result<(), DaoError>)
        ensures
            r is Ok <==> old(self).points_total() <= u64::MAX,
            r is Ok ==> *final(self) == (MemberState { reward_points: old(self).points_total() as u64, ..*old(self) }),
            r is Ok ==> final(self).wf(),
            r is Err ==> r == Err::<(), DaoError>(DaoError::Overflow) && *final(self) == *old(self),
    {
        match reward_sum(self.base_voting_points, self.bonus_voting_points, self.proposal_creation_points, self.proposal_success_points) {
            Some(v) => {
                self.reward_points = v;
                Ok(())
            },
            None => Err(DaoError::Overflow),
        }
    }

    /// Takes `points` back from the base voting points. What cannot be taken,
    /// because fewer base points remain, is added (saturating) to
    /// `forfeited_points`.
    pub fn slash_vote_points(&mut self, points: u64) -> (r: Result<(), DaoError>)
        ensures
            r is Ok <==> old(self).slash_fits(points),
            r is Ok ==> *final(self) == old(self).slashed(points),
            r is Err ==> r == Err::<(), DaoError>(DaoError::Overflow) && *final(self) == *old(self),
            old(self).wf() ==> r is Ok,
            r is Ok ==> final(self).wf(),
    {
        let old_points = self.base_voting_points;
        let base = self.base_voting_points.saturating_sub(points);
        let actual_deduction = old_points - base;
        let mut forfeited = self.forfeited_points;
        if actual_deduction < points {
            forfeited = forfeited.saturating_add(points - actual_deduction);
        }
        let reward = match reward_sum(base, self.bonus_voting_points, self.proposal_creation_points, self.proposal_success_points) {
            Some(v) => v,
            None => return Err(DaoError::Overflow),
        };
        self.base_voting_points = base;
        self.forfeited_points = forfeited;
        self.reward_points = reward;
        Ok(())
    }

    /// Moves the reputation by `change`, held to the range of `u64`: it never
    /// fails.
    pub fn update_reputation(&mut self, change: i64) -> (r: Result<(), DaoError>)
        ensures
            r is Ok,
            *final(self) == old(self).with_reputation(change),
    {
        if change >= 0 {
            self.reputation_score = self.reputation_score.saturating_add(change as u64);
        } else {
            let magnitude: u64 = (-(change + 1)) as u64 + 1;
            self.reputation_score = self.reputation_score.saturating_sub(magnitude);
        }
        Ok(())
    }

    /// A copy of every field but the bump.
    pub fn get_member_state(&self) -> (v: MemberStateView)
        ensures
            v == self.view_of(),
    {
        MemberStateView {
            address: self.address,
            reward_points: self.reward_points,
            total_votes_cast: self.total_votes_cast,
            proposals_created: self.proposals_created,
            successful_proposals: self.successful_proposals,
            join_date: self.join_date,
            reputation_score: self.reputation_score,
            base_voting_points: self.base_voting_points,
            bonus_voting_points: self.bonus_voting_points,
            proposal_creation_points: self.proposal_creation_points,
            proposal_success_points: self.proposal_success_points,
            forfeited_points: self.forfeited_points,
        }
    }

    /// The fields that a query reports.
    pub open spec fn view_of(self) -> MemberStateView {
        MemberStateView {
            address: self.address,
            reward_points: self.reward_points,
            total_votes_cast: self.total_votes_cast,
            proposals_created: self.proposals_created,
            successful_proposals: self.successful_proposals,
            join_date: self.join_date,
            reputation_score: self.reputation_score,
            base_voting_points: self.base_voting_points,
            bonus_voting_points: self.bonus_voting_points,
            proposal_creation_points: self.proposal_creation_points,
            proposal_success_points: self.proposal_success_points,
            forfeited_points: self.forfeited_points,
        }
    }
}

/// The checked sum of four point counters.
fn reward_sum(base: u64, bonus: u64, creation: u64, success: u64) -> (r: Option<u64>)
    ensures
        r is Some <==> points_sum(base, bonus, creation, success) <= u64::MAX,
        r is Some ==> r->0 as int == points_sum(base, bonus, creation, success),
{
    match base.checked_add(bonus) {
        Some(s) => match s.checked_add(creation) {
            Some(s) => s.checked_add(success),
            None => None,
        },
        None => None,
    }
}

} // verus!
