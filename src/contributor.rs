use vstd::prelude::*;

use crate::account::Pubkey;
use crate::errors::RewardError;

verus! {

/// A participant's running counters.
#[derive(Clone, Copy, Debug, Default, PartialEq, Eq)]
pub struct Contributor {
    pub authority: Pubkey,
    pub total_points: u64,
    pub current_month_points: u64,
    pub tokens_claimed: u64,
    pub last_claim_time: i64,
    pub contribution_count: u32,
    pub is_verified: bool,
    pub bump: u8,
}

impl Contributor {
    /// The points of the open period are part of the lifetime total.
    pub open spec fn wf(self) -> bool {
        self.current_month_points <= self.total_points
    }

    /// Whether `points` can be added to every counter without leaving its domain.
    pub open spec fn can_record(self, points: u64) -> bool {
        self.total_points + points <= u64::MAX
            && self.current_month_points + points <= u64::MAX
            && self.contribution_count + 1 <= u32::MAX
    }

    /// The counters after one more contribution worth `points`.
    pub open spec fn recorded(self, points: u64) -> Contributor {
        Contributor {
            total_points: (self.total_points + points) as u64,
            current_month_points: (self.current_month_points + points) as u64,
            contribution_count: (self.contribution_count + 1) as u32,
            ..self
        }
    }

    /// The counters once the open period's points are cleared.
    pub open spec fn month_reset(self) -> Contributor {
        Contributor { current_month_points: 0, ..self }
    }

    /// Why a payout of `amount` at time `now` is refused, if it is.
    pub open spec fn payout_failure(self, amount: u64, now: i64) -> Option<RewardError> {
        if self.last_claim_time >= now {
            Some(RewardError::DistributionAlreadyProcessed)
        } else if self.tokens_claimed + amount > u64::MAX {
            Some(RewardError::InvalidPointsCalculation)
        } else {
            None
        }
    }

    /// The counters after a payout of `amount` at time `now`.
    pub open spec fn paid(self, amount: u64, now: i64) -> Contributor {
        Contributor {
            tokens_claimed: (self.tokens_claimed + amount) as u64,
            last_claim_time: now,
            current_month_points: 0,
            ..self
        }
    }

    /// A fresh participant with every counter at zero.
    pub fn new(authority: Pubkey, bump: u8) -> (r: Contributor)
        ensures
            r == (Contributor {
                authority,
                total_points: 0,
                current_month_points: 0,
                tokens_claimed: 0,
                last_claim_time: 0,
                contribution_count: 0,
                is_verified: false,
                bump,
            }),
            r.wf(),
    {
        Contributor {
            authority,
            total_points: 0,
            current_month_points: 0,
            tokens_claimed: 0,
            last_claim_time: 0,
            contribution_count: 0,
            is_verified: false,
            bump,
        }
    }

    /// Adds a contribution's points to the lifetime and monthly totals and
    /// counts it; on overflow nothing changes.
    pub fn record(&mut self, points: u64) -> (r: Result<(), RewardError>)
        ensures
            old(self).can_record(points) ==> r == Ok::<(), RewardError>(()) && *final(self)
                == old(self).recorded(points),
            !old(self).can_record(points) ==> r == Err::<(), RewardError>(
                RewardError::InvalidPointsCalculation,
            ) && *final(self) == *old(self),
            old(self).wf() ==> final(self).wf(),
    {
        let total = match self.total_points.checked_add(points) {
            Some(v) => v,
            None => return Err(RewardError::InvalidPointsCalculation),
        };
        let month = match self.current_month_points.checked_add(points) {
            Some(v) => v,
            None => return Err(RewardError::InvalidPointsCalculation),
        };
        let count = match self.contribution_count.checked_add(1) {
            Some(v) => v,
            None => return Err(RewardError::InvalidPointsCalculation),
        };
        self.total_points = total;
        self.current_month_points = month;
        self.contribution_count = count;
        Ok(())
    }

    /// Clears the points of the open period; lifetime totals are kept.
    pub fn reset_monthly(&mut self)
        ensures
            *final(self) == old(self).month_reset(),
            old(self).wf() ==> final(self).wf(),
    {
        self.current_month_points = 0;
    }

    /// Credits a payout of `amount` made at time `now` and clears the
    /// period's points. Refused when a payout was already made at or after
    /// `now`, or when the claimed total would overflow; then nothing changes.
    pub fn apply_payout(&mut self, amount: u64, now: i64) -> (r: Result<(), RewardError>)
        ensures
            match old(self).payout_failure(amount, now) {
                Some(e) => r == Err::<(), RewardError>(e) && *final(self) == *old(self),
                None => r == Ok::<(), RewardError>(()) && *final(self) == old(self).paid(
                    amount,
                    now,
                ),
            },
            old(self).wf() ==> final(self).wf(),
    {
        if self.last_claim_time >= now {
            return Err(RewardError::DistributionAlreadyProcessed);
        }
        let claimed = match self.tokens_claimed.checked_add(amount) {
            Some(v) => v,
            None => return Err(RewardError::InvalidPointsCalculation),
        };
        self.tokens_claimed = claimed;
        self.last_claim_time = now;
        self.current_month_points = 0;
        Ok(())
    }
}

/// Clearing the open period's points twice leaves the same counters as
/// clearing them once.
pub proof fn reset_monthly_idempotent(c: Contributor)
    ensures
        c.month_reset().month_reset() == c.month_reset(),
        c.month_reset().current_month_points == 0,
{
}

} // verus!
