use vstd::prelude::*;

use crate::contribution::{Contribution, ContributionType};
use crate::contributor::Contributor;
use crate::errors::RewardError;
use crate::account::Pubkey;
use crate::points::{contribution_score, PointsConfig};

verus! {

/// The records that recording a contribution touches: the participant's
/// counters, the new ledger entry and the program's period counters.
#[derive(Clone, Copy, Debug, Default, PartialEq, Eq)]
pub struct RecordContribution {
    pub contributor: Contributor,
    pub contribution: Contribution,
    pub points_config: PointsConfig,
    pub authority: Pubkey,
}

/// Reported when a contribution is recorded.
#[derive(Clone, Copy, Debug, PartialEq, Eq)]
pub struct ContributionRecorded {
    pub contributor: Pubkey,
    pub contribution_type: ContributionType,
    pub points: u64,
    pub timestamp: i64,
    pub period: u16,
}

impl RecordContribution {
    /// Whether a contribution worth `points` fits every counter it grows.
    pub open spec fn can_record(self, points: u64) -> bool {
        self.contributor.can_record(points) && self.points_config.period_total_points + points
            <= u64::MAX
    }

    /// Scores a contribution, writes its ledger entry, and accrues its
    /// points to the participant and to the open period. When a counter
    /// would overflow the contribution is not recorded and nothing changes.
    pub fn process(
        &mut self,
        contribution_type: ContributionType,
        metadata: [u8; 32],
        impact_score: u8,
        bump: u8,
        now: i64,
    ) -> (r: Result<ContributionRecorded, RewardError>)
        ensures
            ({
                let points = contribution_score(
                    contribution_type,
                    impact_score,
                    old(self).points_config.max_points_per_type,
                );
                &&& old(self).can_record(points) ==> {
                    &&& r == Ok::<ContributionRecorded, RewardError>(
                        ContributionRecorded {
                            contributor: old(self).contributor.authority,
                            contribution_type,
                            points,
                            timestamp: now,
                            period: old(self).points_config.current_period,
                        },
                    )
                    &&& final(self).contributor == old(self).contributor.recorded(points)
                    &&& final(self).points_config == old(self).points_config.accrued(points)
                    &&& final(self).contribution == (Contribution {
                        contributor: old(self).contributor.authority,
                        contribution_type,
                        points,
                        timestamp: now,
                        metadata,
                        is_verified: false,
                        period: old(self).points_config.current_period,
                        bump,
                    })
                    &&& final(self).authority == old(self).authority
                }
                &&& !old(self).can_record(points) ==> r == Err::<ContributionRecorded, RewardError>(
                    RewardError::InvalidPointsCalculation,
                ) && *final(self) == *old(self)
            }),
            old(self).contributor.wf() ==> final(self).contributor.wf(),
    {
        let points = match self.points_config.calculate_contribution_points(
            &contribution_type,
            impact_score,
        ) {
            Ok(p) => p,
            Err(e) => return Err(e),
        };
        if self.points_config.period_total_points.checked_add(points).is_none() {
            return Err(RewardError::InvalidPointsCalculation);
        }
        match self.contributor.record(points) {
            Ok(()) => {},
            Err(e) => return Err(e),
        }
        match self.points_config.update_period_points(points) {
            Ok(()) => {},
            Err(e) => return Err(e),
        }
        self.contribution = Contribution {
            contributor: self.contributor.authority,
            contribution_type,
            points,
            timestamp: now,
            metadata,
            is_verified: false,
            period: self.points_config.current_period,
            bump,
        };
        Ok(
            ContributionRecorded {
                contributor: self.contributor.authority,
                contribution_type,
                points,
                timestamp: now,
                period: self.points_config.current_period,
            },
        )
    }
}

/// Recording a contribution and then reading the participant shows the
/// lifetime and monthly totals each grown by exactly the contribution's
/// score, and one more contribution counted.
pub proof fn record_round_trip(
    c: Contributor,
    contribution_type: ContributionType,
    impact_score: u8,
    max_points: u64,
)
    requires
        c.can_record(contribution_score(contribution_type, impact_score, max_points)),
    ensures
        ({
            let points = contribution_score(contribution_type, impact_score, max_points);
            let after = c.recorded(points);
            &&& after.total_points == c.total_points + points
            &&& after.current_month_points == c.current_month_points + points
            &&& after.contribution_count == c.contribution_count + 1
        }),
{
}

} // verus!
