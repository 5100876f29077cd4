use vstd::prelude::*;

use crate::account::Pubkey;
use crate::contribution::{base_points, ContributionType};
use crate::errors::RewardError;

verus! {

/// Length of an accounting period, in seconds (30 days).
pub const PERIOD_SECONDS: i64 = 30 * 24 * 60 * 60;

/// Minimum points needed for full distribution.
pub const MINIMUM_MONTHLY_THRESHOLD: u64 = 500;

/// Default share of the pool, in basis points, released below the threshold.
pub const DEFAULT_RESERVE_RATIO: u16 = 5000;

/// Default cap on the points of a single contribution.
pub const MAX_POINTS_PER_TYPE: u64 = 1000;

/// An impact score brought into `[1, 5]`.
pub open spec fn clamp_impact(impact_score: u8) -> u64 {
    if impact_score < 1 {
        1
    } else if impact_score > 5 {
        5
    } else {
        impact_score as u64
    }
}

/// The points of one contribution: base score times clamped impact, capped.
pub open spec fn contribution_score(t: ContributionType, impact_score: u8, max_points: u64) -> u64 {
    let raw = base_points(t) * clamp_impact(impact_score);
    if raw <= max_points {
        raw as u64
    } else {
        max_points
    }
}

/// How much of `pool` may be released for a period that accrued
/// `total_points`: all of it at or above the threshold, otherwise the
/// reserve ratio's share, rounded down.
pub open spec fn release_amount(total_points: u64, threshold: u64, ratio: u16, pool: u64) -> int {
    if total_points >= threshold {
        pool as int
    } else {
        (pool as int) * (ratio as int) / 10000
    }
}

/// Program-wide settings and the counters of the open period.
#[derive(Clone, Copy, Debug, Default, PartialEq, Eq)]
pub struct PointsConfig {
    pub authority: Pubkey,
    pub monthly_threshold: u64,
    pub max_points_per_type: u64,
    pub reserve_ratio: u16,
    pub current_period: u16,
    pub period_total_points: u64,
    pub last_calculation_time: i64,
    pub bump: u8,
}

impl PointsConfig {
    /// The reserve ratio is a share of at most the whole pool.
    pub open spec fn wf(self) -> bool {
        self.reserve_ratio <= 10000
    }

    /// What `calculate_distribution_amount` releases of `pool`.
    pub open spec fn releasable(self, total_points: u64, pool: u64) -> int {
        release_amount(total_points, self.monthly_threshold, self.reserve_ratio, pool)
    }

    /// The config with `points` more accrued in the open period.
    pub open spec fn accrued(self, points: u64) -> PointsConfig {
        PointsConfig { period_total_points: (self.period_total_points + points) as u64, ..self }
    }

    /// Sizes the releasable part of `monthly_pool` for a period that accrued
    /// `total_points`. Fails on a period without points, and when the share
    /// does not fit in 64 bits (only possible with a ratio above 100%).
    pub fn calculate_distribution_amount(&self, total_points: u64, monthly_pool: u64) -> (r: Result<
        u64,
        RewardError,
    >)
        ensures
            total_points == 0 ==> r == Err::<u64, RewardError>(
                RewardError::InvalidPointsCalculation,
            ),
            total_points > 0 && self.releasable(total_points, monthly_pool) > u64::MAX ==> r
                == Err::<u64, RewardError>(RewardError::InvalidPointsCalculation),
            total_points > 0 && self.releasable(total_points, monthly_pool) <= u64::MAX ==> r
                == Ok::<u64, RewardError>(self.releasable(total_points, monthly_pool) as u64),
            self.wf() ==> self.releasable(total_points, monthly_pool) <= monthly_pool,
    {
        proof {
            if self.wf() && total_points < self.monthly_threshold {
                assert((monthly_pool as int) * (self.reserve_ratio as int) <= (monthly_pool as int)
                    * 10000) by (nonlinear_arith)
                    requires
                        self.reserve_ratio <= 10000,
                ;
            }
        }
        if total_points == 0 {
            return Err(RewardError::InvalidPointsCalculation);
        }
        if total_points < self.monthly_threshold {
            proof {
                assert((monthly_pool as int) * (self.reserve_ratio as int) <= (u64::MAX as int)
                    * (u16::MAX as int)) by (nonlinear_arith);
            }
            let product: u128 = (monthly_pool as u128) * (self.reserve_ratio as u128);
            let share: u128 = product / 10000;
            if share > u64::MAX as u128 {
                return Err(RewardError::InvalidPointsCalculation);
            }
            Ok(share as u64)
        } else {
            Ok(monthly_pool)
        }
    }

    /// The points of one contribution of kind `contribution_type` with the
    /// given impact score: the impact is clamped to `[1, 5]`, multiplied
    /// with the base score, and the product capped at `max_points_per_type`.
    pub fn calculate_contribution_points(
        &self,
        contribution_type: &ContributionType,
        impact_score: u8,
    ) -> (r: Result<u64, RewardError>)
        ensures
            r == Ok::<u64, RewardError>(
                contribution_score(*contribution_type, impact_score, self.max_points_per_type),
            ),
    {
        let base: u64 = contribution_type.base_points();
        let multiplier: u64 = if impact_score < 1 {
            1
        } else if impact_score > 5 {
            5
        } else {
            impact_score as u64
        };
        let total = match base.checked_mul(multiplier) {
            Some(v) => v,
            None => return Err(RewardError::InvalidPointsCalculation),
        };
        if total <= self.max_points_per_type {
            Ok(total)
        } else {
            Ok(self.max_points_per_type)
        }
    }

    /// Accepts a period close at `current_timestamp` only when at least one
    /// full period has passed since `last_distribution`.
    pub fn validate_monthly_distribution(
        &self,
        current_timestamp: i64,
        last_distribution: i64,
    ) -> (r: Result<bool, RewardError>)
        ensures
            current_timestamp - last_distribution < PERIOD_SECONDS ==> r == Err::<bool, RewardError>(
                RewardError::DistributionPeriodNotEnded,
            ),
            current_timestamp - last_distribution >= PERIOD_SECONDS ==> r == Ok::<bool, RewardError>(
                true,
            ),
    {
        let elapsed: i128 = (current_timestamp as i128) - (last_distribution as i128);
        if elapsed < PERIOD_SECONDS as i128 {
            return Err(RewardError::DistributionPeriodNotEnded);
        }
        Ok(true)
    }

    /// Accrues `points` to the open period; on overflow nothing changes.
    pub fn update_period_points(&mut self, points: u64) -> (r: Result<(), RewardError>)
        ensures
            old(self).period_total_points + points <= u64::MAX ==> r == Ok::<(), RewardError>(())
                && *final(self) == old(self).accrued(points),
            old(self).period_total_points + points > u64::MAX ==> r == Err::<(), RewardError>(
                RewardError::InvalidPointsCalculation,
            ) && *final(self) == *old(self),
    {
        match self.period_total_points.checked_add(points) {
            Some(v) => {
                self.period_total_points = v;
                Ok(())
            },
            None => Err(RewardError::InvalidPointsCalculation),
        }
    }

    /// The share that would be released if the period's own point total
    /// were the pool: the reserve bookkeeping made at a period close.
    pub fn calculate_reserve_amount(&self, total_points: u64) -> (r: Result<u64, RewardError>)
        ensures
            total_points == 0 ==> r == Err::<u64, RewardError>(
                RewardError::InvalidPointsCalculation,
            ),
            total_points > 0 && self.releasable(total_points, self.period_total_points) > u64::MAX
                ==> r == Err::<u64, RewardError>(RewardError::InvalidPointsCalculation),
            total_points > 0 && self.releasable(total_points, self.period_total_points) <= u64::MAX
                ==> r == Ok::<u64, RewardError>(
                self.releasable(total_points, self.period_total_points) as u64,
            ),
    {
        self.calculate_distribution_amount(total_points, self.period_total_points)
    }

    /// Adds `amount` to the open period's running total; on overflow nothing
    /// changes.
    pub fn update_reserve(&mut self, amount: u64) -> (r: Result<(), RewardError>)
        ensures
            old(self).period_total_points + amount <= u64::MAX ==> r == Ok::<(), RewardError>(())
                && *final(self) == old(self).accrued(amount),
            old(self).period_total_points + amount > u64::MAX ==> r == Err::<(), RewardError>(
                RewardError::InvalidPointsCalculation,
            ) && *final(self) == *old(self),
    {
        match self.period_total_points.checked_add(amount) {
            Some(v) => {
                self.period_total_points = v;
                Ok(())
            },
            None => Err(RewardError::InvalidPointsCalculation),
        }
    }
}

/// Within `[1, 5]` the score is the base score times the impact, capped; and
/// a higher impact score never gives fewer points.
pub proof fn contribution_score_law(t: ContributionType, i1: u8, i2: u8, max_points: u64)
    ensures
        1 <= i1 <= 5 ==> contribution_score(t, i1, max_points) == if base_points(t) * i1
            <= max_points {
            base_points(t) * i1
        } else {
            max_points as int
        },
        i1 <= i2 ==> contribution_score(t, i1, max_points) <= contribution_score(
            t,
            i2,
            max_points,
        ),
{
    if i1 <= i2 {
        assert(clamp_impact(i1) <= clamp_impact(i2));
        assert(base_points(t) * clamp_impact(i1) <= base_points(t) * clamp_impact(i2))
            by (nonlinear_arith)
            requires
                clamp_impact(i1) <= clamp_impact(i2),
        ;
    }
}

} // verus!
