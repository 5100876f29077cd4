//! Contribution-rewards accounting: contributions become points, points
//! accrue per participant and per period, each closed period decides how much
//! of a reward pool to release or hold in reserve, and each participant is
//! paid a proportional share of what is released.
//!
//! The engine is handed the current records and returns the new ones together
//! with an event describing what happened. Storage, the clock, identity checks
//! against signatures and the movement of tokens are the caller's.

use vstd::prelude::*;

pub mod account;
pub mod calculate_points;
pub mod contribution;
pub mod contributor;
pub mod distribute_tokens;
pub mod errors;
pub mod manage_reserve;
pub mod points;
pub mod record_contribution;
pub mod setup;

use crate::calculate_points::{
    close_failure,
    closed,
    CalculateMonthlyPoints,
    ContributorPointsUpdated,
    MonthlyPointsCalculated,
    UpdateContributorPoints,
};
use crate::contribution::{Contribution, ContributionType};
use crate::distribute_tokens::{DistributeTokens, TokensDistributed};
use crate::errors::RewardError;
use crate::manage_reserve::{
    config_update_failure,
    config_updated,
    ratio_out_of_range,
    ManageReserve,
    ReserveConfigUpdated,
    ReserveDeposit,
    ReserveTransfer,
    UpdateReserveConfig,
};
use crate::points::{contribution_score, PERIOD_SECONDS};
use crate::record_contribution::{ContributionRecorded, RecordContribution};
use crate::setup::{
    ContributorCreated,
    CreateContributor,
    Initialize,
    InitializeArgs,
    ProgramInitialized,
};

verus! {

/// Smallest accepted monthly threshold.
pub const MIN_POINTS: u64 = 1;

/// Largest accepted impact score.
pub const MAX_IMPACT_SCORE: u8 = 5;

/// Length of an accounting period, in seconds (30 days).
pub const MONTH_IN_SECONDS: i64 = PERIOD_SECONDS;

/// A reserve ratio of the whole pool, in basis points.
pub const MAX_RESERVE_RATIO: u16 = 10_000;

/// Failures of the arguments an instruction is given.
#[derive(Clone, Copy, Debug, PartialEq, Eq, Structural)]
pub enum ProgramError {
    InvalidPointsCalculation,
    Unauthorized,
    InvalidContributionType,
    DistributionPeriodNotEnded,
    BelowMinimumThreshold,
    InvalidImpactScore,
    InvalidAmount,
    InvalidReserveRatio,
    InsufficientBalance,
    ReserveCalculationError,
}

impl ProgramError {
    /// The message of each failure.
    pub open spec fn message_text(self) -> Seq<char> {
        match self {
            ProgramError::InvalidPointsCalculation => "Invalid points calculation"@,
            ProgramError::Unauthorized => "Unauthorized access"@,
            ProgramError::InvalidContributionType => "Invalid contribution type"@,
            ProgramError::DistributionPeriodNotEnded => "Distribution period not ended"@,
            ProgramError::BelowMinimumThreshold => "Below minimum threshold"@,
            ProgramError::InvalidImpactScore => "Invalid impact score"@,
            ProgramError::InvalidAmount => "Invalid amount"@,
            ProgramError::InvalidReserveRatio => "Invalid reserve ratio"@,
            ProgramError::InsufficientBalance => "Insufficient balance"@,
            ProgramError::ReserveCalculationError => "Reserve calculation error"@,
        }
    }

    /// The human-readable message attached to each failure.
    pub fn message(&self) -> (r: &'static str)
        ensures
            r@ == self.message_text(),
    {
        match self {
            ProgramError::InvalidPointsCalculation => "Invalid points calculation",
            ProgramError::Unauthorized => "Unauthorized access",
            ProgramError::InvalidContributionType => "Invalid contribution type",
            ProgramError::DistributionPeriodNotEnded => "Distribution period not ended",
            ProgramError::BelowMinimumThreshold => "Below minimum threshold",
            ProgramError::InvalidImpactScore => "Invalid impact score",
            ProgramError::InvalidAmount => "Invalid amount",
            ProgramError::InvalidReserveRatio => "Invalid reserve ratio",
            ProgramError::InsufficientBalance => "Insufficient balance",
            ProgramError::ReserveCalculationError => "Reserve calculation error",
        }
    }
}

/// Why an instruction failed: its arguments, or the accounting rules.
#[derive(Clone, Copy, Debug, PartialEq, Eq, Structural)]
pub enum InstructionError {
    Program(ProgramError),
    Reward(RewardError),
}

/// An impact score must lie in `[1, 5]`.
pub fn validate_impact_score(score: u8) -> (r: Result<(), ProgramError>)
    ensures
        r == if 0 < score <= MAX_IMPACT_SCORE {
            Ok::<(), ProgramError>(())
        } else {
            Err::<(), ProgramError>(ProgramError::InvalidImpactScore)
        },
{
    if score > 0 && score <= MAX_IMPACT_SCORE {
        Ok(())
    } else {
        Err(ProgramError::InvalidImpactScore)
    }
}

/// A threshold must be at least one point.
pub fn validate_points(points: u64) -> (r: Result<(), ProgramError>)
    ensures
        r == if points >= MIN_POINTS {
            Ok::<(), ProgramError>(())
        } else {
            Err::<(), ProgramError>(ProgramError::InvalidPointsCalculation)
        },
{
    if points >= MIN_POINTS {
        Ok(())
    } else {
        Err(ProgramError::InvalidPointsCalculation)
    }
}

/// A reserve ratio must be at most 10000 basis points.
pub fn validate_reserve_ratio(ratio: u16) -> (r: Result<(), ProgramError>)
    ensures
        r == if ratio <= MAX_RESERVE_RATIO {
            Ok::<(), ProgramError>(())
        } else {
            Err::<(), ProgramError>(ProgramError::InvalidReserveRatio)
        },
{
    if ratio <= MAX_RESERVE_RATIO {
        Ok(())
    } else {
        Err(ProgramError::InvalidReserveRatio)
    }
}

/// Sets up a program instance at time `now`. A reserve ratio above 10000
/// basis points is refused, so every configuration starts well formed.
pub fn initialize(ctx: &mut Initialize, args: InitializeArgs, now: i64, bump: u8) -> (r: Result<
    ProgramInitialized,
    InstructionError,
>)
    ensures
        args.reserve_ratio > MAX_RESERVE_RATIO ==> r == Err::<ProgramInitialized, InstructionError>(
            InstructionError::Program(ProgramError::InvalidReserveRatio),
        ) && *final(ctx) == *old(ctx),
        args.reserve_ratio <= MAX_RESERVE_RATIO ==> {
            &&& r == Ok::<ProgramInitialized, InstructionError>(
                ProgramInitialized {
                    authority: old(ctx).authority,
                    monthly_threshold: args.monthly_threshold,
                    reserve_ratio: args.reserve_ratio,
                    max_points_per_type: args.max_points_per_type,
                    timestamp: now,
                },
            )
            &&& final(ctx).points_config == old(ctx).initialized(args, now, bump)
            &&& final(ctx).points_config.wf()
            &&& final(ctx).authority == old(ctx).authority
        },
{
    match validate_reserve_ratio(args.reserve_ratio) {
        Ok(()) => {},
        Err(e) => return Err(InstructionError::Program(e)),
    }
    Ok(ctx.process(args, now, bump))
}

/// Registers the signer as a participant at time `now`.
pub fn create_contributor(ctx: &mut CreateContributor, now: i64, bump: u8) -> (r: Result<
    ContributorCreated,
    InstructionError,
>)
    ensures
        r == Ok::<ContributorCreated, InstructionError>(
            ContributorCreated {
                authority: old(ctx).authority,
                contributor: old(ctx).authority,
                timestamp: now,
            },
        ),
        final(ctx).authority == old(ctx).authority,
        final(ctx).contributor.authority == old(ctx).authority,
        final(ctx).contributor.total_points == 0,
        final(ctx).contributor.current_month_points == 0,
        final(ctx).contributor.tokens_claimed == 0,
        final(ctx).contributor.last_claim_time == 0,
        final(ctx).contributor.contribution_count == 0,
        !final(ctx).contributor.is_verified,
        final(ctx).contributor.bump == bump,
{
    Ok(ctx.process(now, bump))
}

/// Records a contribution of the given kind and impact at time `now`. An
/// impact score outside `[1, 5]` is refused; otherwise see
/// `RecordContribution::process`.
pub fn record_contribution(
    ctx: &mut RecordContribution,
    contribution_type: ContributionType,
    metadata: [u8; 32],
    impact_score: u8,
    bump: u8,
    now: i64,
) -> (r: Result<ContributionRecorded, InstructionError>)
    ensures
        !(0 < impact_score <= MAX_IMPACT_SCORE) ==> r == Err::<
            ContributionRecorded,
            InstructionError,
        >(InstructionError::Program(ProgramError::InvalidImpactScore)) && *final(ctx) == *old(ctx),
        ({
            let points = contribution_score(
                contribution_type,
                impact_score,
                old(ctx).points_config.max_points_per_type,
            );
            &&& 0 < impact_score <= MAX_IMPACT_SCORE && old(ctx).can_record(points) ==> {
                &&& r == Ok::<ContributionRecorded, InstructionError>(
                    ContributionRecorded {
                        contributor: old(ctx).contributor.authority,
                        contribution_type,
                        points,
                        timestamp: now,
                        period: old(ctx).points_config.current_period,
                    },
                )
                &&& final(ctx).contributor == old(ctx).contributor.recorded(points)
                &&& final(ctx).points_config == old(ctx).points_config.accrued(points)
                &&& final(ctx).contribution == (Contribution {
                    contributor: old(ctx).contributor.authority,
                    contribution_type,
                    points,
                    timestamp: now,
                    metadata,
                    is_verified: false,
                    period: old(ctx).points_config.current_period,
                    bump,
                })
                &&& final(ctx).authority == old(ctx).authority
            }
            &&& 0 < impact_score <= MAX_IMPACT_SCORE && !old(ctx).can_record(points) ==> r
                == Err::<ContributionRecorded, InstructionError>(
                InstructionError::Reward(RewardError::InvalidPointsCalculation),
            ) && *final(ctx) == *old(ctx)
        }),
{
    match validate_impact_score(impact_score) {
        Ok(()) => {},
        Err(e) => return Err(InstructionError::Program(e)),
    }
    match ctx.process(contribution_type, metadata, impact_score, bump, now) {
        Ok(ev) => Ok(ev),
        Err(e) => Err(InstructionError::Reward(e)),
    }
}

/// Closes the open period at time `now`, on the authority's request.
pub fn calculate_monthly_points(ctx: &mut CalculateMonthlyPoints, now: i64) -> (r: Result<
    MonthlyPointsCalculated,
    InstructionError,
>)
    ensures
        old(ctx).points_config.authority.bytes@ != old(ctx).authority.bytes@ ==> r == Err::<
            MonthlyPointsCalculated,
            InstructionError,
        >(InstructionError::Reward(RewardError::Unauthorized)) && *final(ctx) == *old(ctx),
        old(ctx).points_config.authority.bytes@ == old(ctx).authority.bytes@ ==> match close_failure(
            old(ctx).points_config,
            now,
        ) {
            Some(e) => r == Err::<MonthlyPointsCalculated, InstructionError>(
                InstructionError::Reward(e),
            ) && *final(ctx) == *old(ctx),
            None => {
                &&& r == Ok::<MonthlyPointsCalculated, InstructionError>(
                    MonthlyPointsCalculated {
                        period: (old(ctx).points_config.current_period + 1) as u16,
                        total_points: old(ctx).points_config.period_total_points,
                        timestamp: now,
                        meets_threshold: old(ctx).points_config.period_total_points
                            >= old(ctx).points_config.monthly_threshold,
                    },
                )
                &&& final(ctx).points_config == closed(old(ctx).points_config, now)
                &&& final(ctx).authority == old(ctx).authority
            },
        },
{
    match ctx.check_constraints() {
        Ok(()) => {},
        Err(e) => return Err(InstructionError::Reward(e)),
    }
    match ctx.process(now) {
        Ok(ev) => Ok(ev),
        Err(e) => Err(InstructionError::Reward(e)),
    }
}

/// Rolls a participant over to the new period, on the authority's request.
pub fn update_contributor_points(ctx: &mut UpdateContributorPoints) -> (r: Result<
    ContributorPointsUpdated,
    InstructionError,
>)
    ensures
        old(ctx).points_config.authority.bytes@ != old(ctx).authority.bytes@ ==> r == Err::<
            ContributorPointsUpdated,
            InstructionError,
        >(InstructionError::Reward(RewardError::Unauthorized)) && *final(ctx) == *old(ctx),
        old(ctx).points_config.authority.bytes@ == old(ctx).authority.bytes@ ==> {
            &&& r == Ok::<ContributorPointsUpdated, InstructionError>(
                ContributorPointsUpdated {
                    contributor: old(ctx).contributor.authority,
                    total_points: old(ctx).contributor.total_points,
                    period: old(ctx).points_config.current_period,
                },
            )
            &&& final(ctx).contributor == old(ctx).contributor.month_reset()
            &&& final(ctx).points_config == old(ctx).points_config
            &&& final(ctx).authority == old(ctx).authority
        },
{
    match ctx.check_constraints() {
        Ok(()) => {},
        Err(e) => return Err(InstructionError::Reward(e)),
    }
    match ctx.process() {
        Ok(ev) => Ok(ev),
        Err(e) => Err(InstructionError::Reward(e)),
    }
}

/// Pays a participant its share of the open period at time `now`; see
/// `DistributeTokens::process`.
pub fn distribute_tokens(ctx: &mut DistributeTokens, now: i64) -> (r: Result<
    TokensDistributed,
    InstructionError,
>)
    ensures
        match old(ctx).payout_failure(now) {
            Some(e) => r == Err::<TokensDistributed, InstructionError>(InstructionError::Reward(e))
                && *final(ctx) == *old(ctx),
            None => r == Ok::<TokensDistributed, InstructionError>(
                TokensDistributed {
                    contributor: old(ctx).contributor.authority,
                    amount: old(ctx).share() as u64,
                    period: old(ctx).points_config.current_period,
                    timestamp: now,
                },
            ) && *final(ctx) == old(ctx).paid(now),
        },
{
    match ctx.process(now) {
        Ok(ev) => Ok(ev),
        Err(e) => Err(InstructionError::Reward(e)),
    }
}

/// Releases `amount` from the reserve into the distribution pool, on the
/// authority's request. A zero amount is refused.
pub fn process_reserve_transfer(ctx: &mut ManageReserve, amount: u64, now: i64) -> (r: Result<
    ReserveTransfer,
    InstructionError,
>)
    ensures
        old(ctx).points_config.authority.bytes@ != old(ctx).authority.bytes@ ==> r == Err::<
            ReserveTransfer,
            InstructionError,
        >(InstructionError::Reward(RewardError::Unauthorized)) && *final(ctx) == *old(ctx),
        old(ctx).points_config.authority.bytes@ == old(ctx).authority.bytes@ && amount == 0 ==> r
            == Err::<ReserveTransfer, InstructionError>(
            InstructionError::Program(ProgramError::InvalidAmount),
        ) && *final(ctx) == *old(ctx),
        old(ctx).points_config.authority.bytes@ == old(ctx).authority.bytes@ && amount > 0 ==> match old(
            ctx,
        ).release_failure(amount) {
            Some(e) => r == Err::<ReserveTransfer, InstructionError>(InstructionError::Reward(e))
                && *final(ctx) == *old(ctx),
            None => r == Ok::<ReserveTransfer, InstructionError>(
                ReserveTransfer {
                    amount,
                    timestamp: now,
                    from_reserve: old(ctx).reserve_vault.key,
                    to_distribution: old(ctx).distribution_vault.key,
                },
            ) && *final(ctx) == old(ctx).released(amount),
        },
{
    match ctx.check_constraints() {
        Ok(()) => {},
        Err(e) => return Err(InstructionError::Reward(e)),
    }
    if amount == 0 {
        return Err(InstructionError::Program(ProgramError::InvalidAmount));
    }
    match ctx.process_reserve_transfer(amount, now) {
        Ok(ev) => Ok(ev),
        Err(e) => Err(InstructionError::Reward(e)),
    }
}

/// Moves `amount` from the distribution pool into the reserve, on the
/// authority's request. A zero amount is refused.
pub fn process_add_to_reserve(ctx: &mut ManageReserve, amount: u64, now: i64) -> (r: Result<
    ReserveDeposit,
    InstructionError,
>)
    ensures
        old(ctx).points_config.authority.bytes@ != old(ctx).authority.bytes@ ==> r == Err::<
            ReserveDeposit,
            InstructionError,
        >(InstructionError::Reward(RewardError::Unauthorized)) && *final(ctx) == *old(ctx),
        old(ctx).points_config.authority.bytes@ == old(ctx).authority.bytes@ && amount == 0 ==> r
            == Err::<ReserveDeposit, InstructionError>(
            InstructionError::Program(ProgramError::InvalidAmount),
        ) && *final(ctx) == *old(ctx),
        old(ctx).points_config.authority.bytes@ == old(ctx).authority.bytes@ && amount > 0 ==> match old(
            ctx,
        ).deposit_failure(amount) {
            Some(e) => r == Err::<ReserveDeposit, InstructionError>(InstructionError::Reward(e))
                && *final(ctx) == *old(ctx),
            None => r == Ok::<ReserveDeposit, InstructionError>(
                ReserveDeposit {
                    amount,
                    timestamp: now,
                    new_reserve_balance: (old(ctx).reserve_vault.amount + amount) as u64,
                },
            ) && *final(ctx) == old(ctx).deposited(amount),
        },
{
    match ctx.check_constraints() {
        Ok(()) => {},
        Err(e) => return Err(InstructionError::Reward(e)),
    }
    if amount == 0 {
        return Err(InstructionError::Program(ProgramError::InvalidAmount));
    }
    match ctx.process_add_to_reserve(amount, now) {
        Ok(ev) => Ok(ev),
        Err(e) => Err(InstructionError::Reward(e)),
    }
}

/// Changes the reserve ratio and the monthly threshold, each where one is
/// given, on the authority's request. A ratio above 10000 basis points is
/// refused as an invalid ratio, a zero threshold as an invalid points value.
pub fn update_reserve_config(
    ctx: &mut UpdateReserveConfig,
    new_reserve_ratio: Option<u16>,
    new_monthly_threshold: Option<u64>,
    now: i64,
) -> (r: Result<ReserveConfigUpdated, InstructionError>)
    ensures
        old(ctx).points_config.authority.bytes@ != old(ctx).authority.bytes@ ==> r == Err::<
            ReserveConfigUpdated,
            InstructionError,
        >(InstructionError::Reward(RewardError::Unauthorized)) && *final(ctx) == *old(ctx),
        old(ctx).points_config.authority.bytes@ == old(ctx).authority.bytes@ ==> {
            &&& ratio_out_of_range(new_reserve_ratio) ==> r == Err::<
                ReserveConfigUpdated,
                InstructionError,
            >(InstructionError::Program(ProgramError::InvalidReserveRatio)) && *final(ctx)
                == *old(ctx)
            &&& !ratio_out_of_range(new_reserve_ratio) && new_monthly_threshold == Some(0u64) ==> r == Err::<
                ReserveConfigUpdated,
                InstructionError,
            >(InstructionError::Program(ProgramError::InvalidPointsCalculation)) && *final(ctx)
                == *old(ctx)
            &&& config_update_failure(new_reserve_ratio, new_monthly_threshold) is None ==> {
                let c = config_updated(
                    old(ctx).points_config,
                    new_reserve_ratio,
                    new_monthly_threshold,
                );
                &&& r == Ok::<ReserveConfigUpdated, InstructionError>(
                    ReserveConfigUpdated {
                        reserve_ratio: c.reserve_ratio,
                        monthly_threshold: c.monthly_threshold,
                        timestamp: now,
                    },
                )
                &&& final(ctx).points_config == c
                &&& final(ctx).authority == old(ctx).authority
            }
        },
{
    match ctx.check_constraints() {
        Ok(()) => {},
        Err(e) => return Err(InstructionError::Reward(e)),
    }
    if let Some(ratio) = new_reserve_ratio {
        match validate_reserve_ratio(ratio) {
            Ok(()) => {},
            Err(e) => return Err(InstructionError::Program(e)),
        }
    }
    if let Some(threshold) = new_monthly_threshold {
        match validate_points(threshold) {
            Ok(()) => {},
            Err(e) => return Err(InstructionError::Program(e)),
        }
    }
    match ctx.process(new_reserve_ratio, new_monthly_threshold, now) {
        Ok(ev) => Ok(ev),
        Err(e) => Err(InstructionError::Reward(e)),
    }
}

} // verus!
