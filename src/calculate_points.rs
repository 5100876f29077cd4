use vstd::prelude::*;

use crate::account::Pubkey;
use crate::contributor::Contributor;
use crate::errors::RewardError;
use crate::points::{PointsConfig, PERIOD_SECONDS};

verus! {

/// The records that closing a period touches.
#[derive(Clone, Copy, Debug, Default, PartialEq, Eq)]
pub struct CalculateMonthlyPoints {
    pub points_config: PointsConfig,
    pub authority: Pubkey,
}

/// The records that rolling a participant over to a new period touches.
#[derive(Clone, Copy, Debug, Default, PartialEq, Eq)]
pub struct UpdateContributorPoints {
    pub contributor: Contributor,
    pub points_config: PointsConfig,
    pub authority: Pubkey,
}

/// Reported when a period is closed; `period` is the period just opened.
#[derive(Clone, Copy, Debug, PartialEq, Eq)]
pub struct MonthlyPointsCalculated {
    pub period: u16,
    pub total_points: u64,
    pub timestamp: i64,
    pub meets_threshold: bool,
}

/// Reported when a participant is rolled over to a new period.
#[derive(Clone, Copy, Debug, PartialEq, Eq)]
pub struct ContributorPointsUpdated {
    pub contributor: Pubkey,
    pub total_points: u64,
    pub period: u16,
}

/// Why closing the open period of `c` at time `now` is refused, if it is:
/// the period has not lasted its full length, it accrued no points, or the
/// period counter is at its maximum.
pub open spec fn close_failure(c: PointsConfig, now: i64) -> Option<RewardError> {
    let total = c.period_total_points;
    if now - c.last_calculation_time < PERIOD_SECONDS {
        Some(RewardError::DistributionPeriodNotEnded)
    } else if total == 0 {
        Some(RewardError::InvalidPointsCalculation)
    } else if c.current_period == u16::MAX {
        Some(RewardError::InvalidPointsCalculation)
    } else {
        None
    }
}

/// The configuration after the open period is closed at time `now`: the
/// next period is open, with no points and its clock started.
pub open spec fn closed(c: PointsConfig, now: i64) -> PointsConfig {
    PointsConfig {
        current_period: (c.current_period + 1) as u16,
        period_total_points: 0,
        last_calculation_time: now,
        ..c
    }
}

/// A close is refused as premature while less than a full period has passed
/// since the last close, and timing no longer refuses it once a full period
/// has passed, the boundary included.
pub proof fn close_timing(c: PointsConfig, now: i64)
    ensures
        now - c.last_calculation_time < PERIOD_SECONDS ==> close_failure(c, now) == Some(
            RewardError::DistributionPeriodNotEnded,
        ),
        now - c.last_calculation_time >= PERIOD_SECONDS ==> close_failure(c, now) != Some(
            RewardError::DistributionPeriodNotEnded,
        ),
        now - c.last_calculation_time == PERIOD_SECONDS && c.period_total_points > 0
            && c.period_total_points >= c.monthly_threshold && c.current_period < u16::MAX
            ==> close_failure(c, now) is None,
{
}

impl CalculateMonthlyPoints {
    /// Only the configuration's authority may close a period.
    pub fn check_constraints(&self) -> (r: Result<(), RewardError>)
        ensures
            r == if self.points_config.authority.bytes@ == self.authority.bytes@ {
                Ok::<(), RewardError>(())
            } else {
                Err::<(), RewardError>(RewardError::Unauthorized)
            },
    {
        if self.points_config.authority.same_as(&self.authority) {
            Ok(())
        } else {
            Err(RewardError::Unauthorized)
        }
    }

    /// Closes the open period at time `now` and opens the next one. The
    /// report says whether the closed period reached the threshold for full
    /// distribution. When the close is refused nothing changes.
    pub fn process(&mut self, now: i64) -> (r: Result<MonthlyPointsCalculated, RewardError>)
        ensures
            match close_failure(old(self).points_config, now) {
                Some(e) => r == Err::<MonthlyPointsCalculated, RewardError>(e) && *final(self)
                    == *old(self),
                None => {
                    &&& r == Ok::<MonthlyPointsCalculated, RewardError>(
                        MonthlyPointsCalculated {
                            period: (old(self).points_config.current_period + 1) as u16,
                            total_points: old(self).points_config.period_total_points,
                            timestamp: now,
                            meets_threshold: old(self).points_config.period_total_points
                                >= old(self).points_config.monthly_threshold,
                        },
                    )
                    &&& final(self).points_config == closed(old(self).points_config, now)
                    &&& final(self).authority == old(self).authority
                },
            },
    {
        match self.points_config.validate_monthly_distribution(
            now,
            self.points_config.last_calculation_time,
        ) {
            Ok(_) => {},
            Err(e) => return Err(e),
        }
        let total_points = self.points_config.period_total_points;
        if total_points == 0 {
            return Err(RewardError::InvalidPointsCalculation);
        }
        let next_period = match self.points_config.current_period.checked_add(1) {
            Some(p) => p,
            None => return Err(RewardError::InvalidPointsCalculation),
        };
        self.points_config.current_period = next_period;
        self.points_config.period_total_points = 0;
        self.points_config.last_calculation_time = now;
        Ok(
            MonthlyPointsCalculated {
                period: next_period,
                total_points,
                timestamp: now,
                meets_threshold: total_points >= self.points_config.monthly_threshold,
            },
        )
    }
}

impl UpdateContributorPoints {
    /// Only the configuration's authority may roll participants over.
    pub fn check_constraints(&self) -> (r: Result<(), RewardError>)
        ensures
            r == if self.points_config.authority.bytes@ == self.authority.bytes@ {
                Ok::<(), RewardError>(())
            } else {
                Err::<(), RewardError>(RewardError::Unauthorized)
            },
    {
        if self.points_config.authority.same_as(&self.authority) {
            Ok(())
        } else {
            Err(RewardError::Unauthorized)
        }
    }

    /// Clears the participant's points of the open period; the lifetime
    /// total is kept.
    pub fn process(&mut self) -> (r: Result<ContributorPointsUpdated, RewardError>)
        ensures
            final(self).contributor == old(self).contributor.month_reset(),
            final(self).points_config == old(self).points_config,
            final(self).authority == old(self).authority,
            r == Ok::<ContributorPointsUpdated, RewardError>(
                ContributorPointsUpdated {
                    contributor: old(self).contributor.authority,
                    total_points: old(self).contributor.total_points,
                    period: old(self).points_config.current_period,
                },
            ),
    {
        self.contributor.reset_monthly();
        Ok(
            ContributorPointsUpdated {
                contributor: self.contributor.authority,
                total_points: self.contributor.total_points,
                period: self.points_config.current_period,
            },
        )
    }
}

} // verus!
