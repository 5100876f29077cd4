use vstd::prelude::*;

use crate::account::Pubkey;
use crate::contributor::Contributor;
use crate::points::PointsConfig;

verus! {

/// The settings a program instance starts with.
#[derive(Clone, Copy, Debug, PartialEq, Eq)]
pub struct InitializeArgs {
    pub monthly_threshold: u64,
    pub reserve_ratio: u16,
    pub max_points_per_type: u64,
}

/// The records that setting up a program instance touches.
#[derive(Clone, Copy, Debug, Default, PartialEq, Eq)]
pub struct Initialize {
    pub points_config: PointsConfig,
    pub authority: Pubkey,
}

/// The records that registering a participant touches.
#[derive(Clone, Copy, Debug, Default, PartialEq, Eq)]
pub struct CreateContributor {
    pub contributor: Contributor,
    pub authority: Pubkey,
}

/// Reported when a program instance is set up.
#[derive(Clone, Copy, Debug, PartialEq, Eq)]
pub struct ProgramInitialized {
    pub authority: Pubkey,
    pub monthly_threshold: u64,
    pub reserve_ratio: u16,
    pub max_points_per_type: u64,
    pub timestamp: i64,
}

/// Reported when a participant is registered. A participant's record is
/// keyed by its owner, so `contributor` names the record by that identity.
#[derive(Clone, Copy, Debug, PartialEq, Eq)]
pub struct ContributorCreated {
    pub authority: Pubkey,
    pub contributor: Pubkey,
    pub timestamp: i64,
}

impl Initialize {
    /// The configuration `process` writes.
    pub open spec fn initialized(self, args: InitializeArgs, now: i64, bump: u8) -> PointsConfig {
        PointsConfig {
            authority: self.authority,
            monthly_threshold: args.monthly_threshold,
            reserve_ratio: args.reserve_ratio,
            max_points_per_type: args.max_points_per_type,
            current_period: 1,
            period_total_points: 0,
            last_calculation_time: now,
            bump,
        }
    }

    /// Opens period 1 at time `now` with the given settings, owned by
    /// `authority`. The reserve ratio must be a share of at most the whole
    /// pool.
    pub fn process(&mut self, args: InitializeArgs, now: i64, bump: u8) -> (r: ProgramInitialized)
        requires
            args.reserve_ratio <= 10000,
        ensures
            final(self).authority == old(self).authority,
            final(self).points_config == old(self).initialized(args, now, bump),
            final(self).points_config.wf(),
            r == (ProgramInitialized {
                authority: old(self).authority,
                monthly_threshold: args.monthly_threshold,
                reserve_ratio: args.reserve_ratio,
                max_points_per_type: args.max_points_per_type,
                timestamp: now,
            }),
    {
        self.points_config = PointsConfig {
            authority: self.authority,
            monthly_threshold: args.monthly_threshold,
            reserve_ratio: args.reserve_ratio,
            max_points_per_type: args.max_points_per_type,
            current_period: 1,
            period_total_points: 0,
            last_calculation_time: now,
            bump,
        };
        ProgramInitialized {
            authority: self.authority,
            monthly_threshold: args.monthly_threshold,
            reserve_ratio: args.reserve_ratio,
            max_points_per_type: args.max_points_per_type,
            timestamp: now,
        }
    }
}

impl CreateContributor {
    /// Registers `authority` as a participant with every counter at zero.
    pub fn process(&mut self, now: i64, bump: u8) -> (r: ContributorCreated)
        ensures
            final(self).authority == old(self).authority,
            final(self).contributor == (Contributor {
                authority: old(self).authority,
                total_points: 0,
                current_month_points: 0,
                tokens_claimed: 0,
                last_claim_time: 0,
                contribution_count: 0,
                is_verified: false,
                bump,
            }),
            final(self).contributor.wf(),
            r == (ContributorCreated {
                authority: old(self).authority,
                contributor: old(self).authority,
                timestamp: now,
            }),
    {
        self.contributor = Contributor::new(self.authority, bump);
        ContributorCreated { authority: self.authority, contributor: self.authority, timestamp: now }
    }
}

} // verus!
