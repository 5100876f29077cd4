use aixblock_rewards::account::{Pubkey, TokenAccount};
use aixblock_rewards::calculate_points::{CalculateMonthlyPoints, UpdateContributorPoints};
use aixblock_rewards::contribution::{Contribution, ContributionType};
use aixblock_rewards::contributor::Contributor;
use aixblock_rewards::distribute_tokens::{DistributeTokens, DistributionPeriod};
use aixblock_rewards::errors::RewardError;
use aixblock_rewards::manage_reserve::{ManageReserve, UpdateReserveConfig};
use aixblock_rewards::points::PointsConfig;
use aixblock_rewards::record_contribution::RecordContribution;
use aixblock_rewards::setup::{CreateContributor, Initialize, InitializeArgs};
use aixblock_rewards::{
    calculate_monthly_points, create_contributor, distribute_tokens, initialize,
    process_add_to_reserve, process_reserve_transfer, record_contribution,
    update_contributor_points, update_reserve_config, validate_impact_score, validate_points,
    validate_reserve_ratio, InstructionError, ProgramError, MONTH_IN_SECONDS,
};

const T0: i64 = 1_700_000_000;

fn key(b: u8) -> Pubkey {
    Pubkey::new([b; 32])
}

fn config(threshold: u64, ratio: u16, total: u64) -> PointsConfig {
    PointsConfig {
        authority: key(1),
        monthly_threshold: threshold,
        max_points_per_type: 1000,
        reserve_ratio: ratio,
        current_period: 1,
        period_total_points: total,
        last_calculation_time: T0,
        bump: 0,
    }
}

fn contributor(month: u64) -> Contributor {
    Contributor {
        authority: key(7),
        total_points: month,
        current_month_points: month,
        tokens_claimed: 0,
        last_claim_time: 0,
        contribution_count: 1,
        is_verified: false,
        bump: 0,
    }
}

fn payout_ctx(cfg: PointsConfig, c: Contributor, pool: u64) -> DistributeTokens {
    DistributeTokens {
        points_config: cfg,
        contributor: c,
        reward_vault: TokenAccount { key: key(3), amount: pool },
        contributor_token_account: TokenAccount { key: key(4), amount: 0 },
        reward_vault_authority: key(5),
        authority: key(7),
        distribution_period: DistributionPeriod::default(),
    }
}

#[test]
fn score_is_base_times_impact_capped() {
    let cfg = config(500, 5000, 0);
    let cases = [
        (ContributionType::PullRequest, 30u64),
        (ContributionType::CodeReview, 20),
        (ContributionType::Review, 20),
        (ContributionType::Documentation, 15),
        (ContributionType::Testing, 15),
        (ContributionType::BugReport, 10),
        (ContributionType::Code, 10),
        (ContributionType::CodeCommit, 10),
        (ContributionType::Community, 5),
        (ContributionType::Other, 5),
    ];
    for (t, base) in cases.iter() {
        for impact in 1u8..=5 {
            assert_eq!(cfg.calculate_contribution_points(t, impact), Ok(base * impact as u64));
        }
    }
    let mut capped = cfg;
    capped.max_points_per_type = 100;
    assert_eq!(capped.calculate_contribution_points(&ContributionType::PullRequest, 4), Ok(100));
    assert_eq!(capped.calculate_contribution_points(&ContributionType::PullRequest, 3), Ok(90));
}

#[test]
fn score_clamps_impact_and_is_monotonic() {
    let mut cfg = config(500, 5000, 0);
    cfg.max_points_per_type = 60;
    let t = ContributionType::Documentation;
    assert_eq!(cfg.calculate_contribution_points(&t, 0), Ok(15));
    assert_eq!(cfg.calculate_contribution_points(&t, 9), Ok(60));
    let mut last = 0u64;
    for impact in 0u8..=10 {
        let s = cfg.calculate_contribution_points(&t, impact).unwrap();
        assert!(s >= last);
        last = s;
    }
}

#[test]
fn contribution_base_points() {
    let c = Contribution {
        contribution_type: ContributionType::PullRequest,
        ..Contribution::default()
    };
    assert_eq!(c.calculate_points(), Ok(30));
}

#[test]
fn release_below_threshold_takes_reserve_ratio() {
    let cfg = config(500, 5000, 300);
    assert_eq!(cfg.calculate_distribution_amount(300, 1000), Ok(500));
    assert_eq!(cfg.calculate_distribution_amount(500, 1000), Ok(1000));
    assert_eq!(cfg.calculate_distribution_amount(0, 1000), Err(RewardError::InvalidPointsCalculation));
    let odd = config(500, 3333, 300);
    assert_eq!(odd.calculate_distribution_amount(300, 1000), Ok(333));
    let max = config(500, 10000, 1);
    assert_eq!(max.calculate_distribution_amount(1, u64::MAX), Ok(u64::MAX));
}

#[test]
fn reserve_amount_uses_period_total_as_pool() {
    let cfg = config(500, 5000, 300);
    assert_eq!(cfg.calculate_reserve_amount(300), Ok(150));
}

#[test]
fn payout_is_floor_of_proportional_share() {
    let mut ctx = payout_ctx(config(500, 5000, 300), contributor(60), 1000);
    assert_eq!(ctx.calculate_tokens_for_contributor(), Ok(100));
    let ev = distribute_tokens(&mut ctx, T0 + 10).unwrap();
    assert_eq!(ev.amount, 100);
    assert_eq!(ev.period, 1);
    assert_eq!(ev.timestamp, T0 + 10);
    assert_eq!(ctx.contributor.tokens_claimed, 100);
    assert_eq!(ctx.contributor.current_month_points, 0);
    assert_eq!(ctx.contributor.last_claim_time, T0 + 10);
    assert_eq!(ctx.distribution_period.tokens_distributed, 100);
    assert_eq!(ctx.distribution_period.total_tokens, 1000);
    assert_eq!(ctx.distribution_period.total_points, 300);
    assert_eq!(ctx.distribution_period.start_time, T0 + 10);
}

#[test]
fn payouts_never_exceed_releasable() {
    let cfg = config(500, 5000, 301);
    let mut period = DistributionPeriod::default();
    let mut paid = 0u64;
    let shares = [100u64, 100, 101];
    for (i, pts) in shares.iter().enumerate() {
        let mut c = contributor(*pts);
        c.authority = key(10 + i as u8);
        let mut ctx = payout_ctx(cfg, c, 1000);
        ctx.distribution_period = period;
        let ev = distribute_tokens(&mut ctx, T0 + 5).unwrap();
        paid += ev.amount;
        period = ctx.distribution_period;
    }
    assert_eq!(paid, 166 + 166 + 167);
    assert!(paid <= 500);
    assert!(500 - paid <= 3);
    assert_eq!(period.tokens_distributed, paid);
    assert_eq!(period.total_tokens, 1000);
}

#[test]
fn second_payout_in_same_instant_is_refused() {
    let mut ctx = payout_ctx(config(500, 5000, 300), contributor(60), 1000);
    assert!(distribute_tokens(&mut ctx, T0 + 10).is_ok());
    let before = ctx;
    assert_eq!(
        distribute_tokens(&mut ctx, T0 + 10),
        Err(InstructionError::Reward(RewardError::DistributionAlreadyProcessed))
    );
    assert_eq!(ctx, before);
}

#[test]
fn second_payout_later_in_period_is_refused() {
    let mut ctx = payout_ctx(config(500, 5000, 300), contributor(60), 1000);
    assert!(distribute_tokens(&mut ctx, T0 + 10).is_ok());
    ctx.contributor.current_month_points = 60;
    let before = ctx;
    assert_eq!(
        distribute_tokens(&mut ctx, T0 + 20),
        Err(InstructionError::Reward(RewardError::DistributionAlreadyProcessed))
    );
    assert_eq!(ctx, before);
}

#[test]
fn payout_after_period_close_is_accepted() {
    let mut ctx = payout_ctx(config(500, 5000, 300), contributor(60), 1000);
    assert!(distribute_tokens(&mut ctx, T0 + 10).is_ok());
    ctx.points_config.last_calculation_time = T0 + MONTH_IN_SECONDS;
    ctx.contributor.current_month_points = 30;
    ctx.distribution_period = DistributionPeriod::default();
    let ev = distribute_tokens(&mut ctx, T0 + MONTH_IN_SECONDS + 1).unwrap();
    assert_eq!(ev.amount, 50);
    assert_eq!(ctx.contributor.tokens_claimed, 150);
}

#[test]
fn clock_starting_at_zero_pays_new_participant_once() {
    let mut init = Initialize { points_config: PointsConfig::default(), authority: key(1) };
    let args = InitializeArgs { monthly_threshold: 500, reserve_ratio: 5000, max_points_per_type: 1000 };
    initialize(&mut init, args, 0, 0).unwrap();
    let mut cc = CreateContributor { contributor: Contributor::default(), authority: key(7) };
    create_contributor(&mut cc, 0, 0).unwrap();
    let mut rec = RecordContribution {
        contributor: cc.contributor,
        contribution: Contribution::default(),
        points_config: init.points_config,
        authority: key(7),
    };
    let ev = record_contribution(&mut rec, ContributionType::Documentation, [0; 32], 4, 0, 10).unwrap();
    assert_eq!(ev.points, 60);
    let mut cfg = rec.points_config;
    cfg.period_total_points = 300;
    let mut ctx = payout_ctx(cfg, rec.contributor, 1000);
    let ev = distribute_tokens(&mut ctx, 1000).unwrap();
    assert_eq!(ev.amount, 100);
    assert_eq!(ctx.contributor.tokens_claimed, 100);
    assert_eq!(ctx.contributor.current_month_points, 0);
    assert_eq!(ctx.contributor.last_claim_time, 1000);
    ctx.contributor.current_month_points = 60;
    let before = ctx;
    assert_eq!(
        distribute_tokens(&mut ctx, 5000),
        Err(InstructionError::Reward(RewardError::DistributionAlreadyProcessed))
    );
    assert_eq!(ctx, before);
}

#[test]
fn same_instant_payouts_from_clock_zero() {
    let mut cfg = config(500, 5000, 300);
    cfg.last_calculation_time = 0;
    let mut ctx = payout_ctx(cfg, contributor(60), 1000);
    assert_eq!(distribute_tokens(&mut ctx, 5000).unwrap().amount, 100);
    assert_eq!(ctx.contributor.tokens_claimed, 100);
    assert_eq!(
        distribute_tokens(&mut ctx, 5000),
        Err(InstructionError::Reward(RewardError::DistributionAlreadyProcessed))
    );
    assert_eq!(ctx.contributor.tokens_claimed, 100);
}

#[test]
fn payout_with_tiny_share_is_refused() {
    let mut ctx = payout_ctx(config(500, 5000, 300), contributor(1), 100);
    assert_eq!(ctx.calculate_tokens_for_contributor(), Ok(0));
    assert_eq!(
        distribute_tokens(&mut ctx, T0),
        Err(InstructionError::Reward(RewardError::InsufficientBalance))
    );
}

#[test]
fn payout_overflowing_claimed_total_is_refused() {
    let mut c = contributor(300);
    c.tokens_claimed = u64::MAX;
    let mut ctx = payout_ctx(config(500, 5000, 300), c, 1000);
    let before = ctx;
    assert_eq!(
        distribute_tokens(&mut ctx, T0),
        Err(InstructionError::Reward(RewardError::InvalidPointsCalculation))
    );
    assert_eq!(ctx, before);
}

#[test]
fn recording_grows_counters_by_score() {
    let mut ctx = RecordContribution {
        contributor: contributor(0),
        contribution: Contribution::default(),
        points_config: config(500, 5000, 40),
        authority: key(7),
    };
    let ev = record_contribution(&mut ctx, ContributionType::BugReport, [9; 32], 3, 2, T0 + 1).unwrap();
    assert_eq!(ev.points, 30);
    assert_eq!(ev.period, 1);
    assert_eq!(ev.contributor, key(7));
    assert_eq!(ctx.contributor.total_points, 30);
    assert_eq!(ctx.contributor.current_month_points, 30);
    assert_eq!(ctx.contributor.contribution_count, 2);
    assert_eq!(ctx.points_config.period_total_points, 70);
    assert_eq!(ctx.contribution.points, 30);
    assert_eq!(ctx.contribution.metadata, [9; 32]);
    assert_eq!(ctx.contribution.timestamp, T0 + 1);
    assert_eq!(ctx.contribution.bump, 2);
    assert!(!ctx.contribution.is_verified);
}

#[test]
fn recording_rejects_bad_impact_and_overflow() {
    let mut ctx = RecordContribution {
        contributor: contributor(0),
        contribution: Contribution::default(),
        points_config: config(500, 5000, u64::MAX - 5),
        authority: key(7),
    };
    let before = ctx;
    assert_eq!(
        record_contribution(&mut ctx, ContributionType::Code, [0; 32], 6, 0, T0),
        Err(InstructionError::Program(ProgramError::InvalidImpactScore))
    );
    assert_eq!(
        record_contribution(&mut ctx, ContributionType::Code, [0; 32], 1, 0, T0),
        Err(InstructionError::Reward(RewardError::InvalidPointsCalculation))
    );
    assert_eq!(ctx, before);
}

#[test]
fn ledger_record_and_reset() {
    let mut c = contributor(10);
    assert_eq!(c.record(5), Ok(()));
    assert_eq!((c.total_points, c.current_month_points, c.contribution_count), (15, 15, 2));
    c.reset_monthly();
    let once = c;
    c.reset_monthly();
    assert_eq!(c, once);
    assert_eq!(c.current_month_points, 0);
    assert_eq!(c.total_points, 15);
    c.total_points = u64::MAX;
    assert_eq!(c.record(1), Err(RewardError::InvalidPointsCalculation));
}

#[test]
fn ledger_apply_payout_guard() {
    let mut c = contributor(10);
    assert_eq!(c.apply_payout(7, 100), Ok(()));
    assert_eq!((c.tokens_claimed, c.last_claim_time, c.current_month_points), (7, 100, 0));
    assert_eq!(c.apply_payout(7, 100), Err(RewardError::DistributionAlreadyProcessed));
    assert_eq!(c.apply_payout(7, 99), Err(RewardError::DistributionAlreadyProcessed));
}

#[test]
fn period_close_boundary() {
    let mut ctx = CalculateMonthlyPoints { points_config: config(500, 5000, 300), authority: key(1) };
    let before = ctx;
    assert_eq!(
        calculate_monthly_points(&mut ctx, T0 + MONTH_IN_SECONDS - 1),
        Err(InstructionError::Reward(RewardError::DistributionPeriodNotEnded))
    );
    assert_eq!(ctx, before);
    let ev = calculate_monthly_points(&mut ctx, T0 + MONTH_IN_SECONDS).unwrap();
    assert_eq!(ev.period, 2);
    assert_eq!(ev.total_points, 300);
    assert!(!ev.meets_threshold);
    assert_eq!(ctx.points_config.current_period, 2);
    assert_eq!(ctx.points_config.period_total_points, 0);
    assert_eq!(ctx.points_config.last_calculation_time, T0 + MONTH_IN_SECONDS);
}

#[test]
fn period_close_failures() {
    let mut empty = CalculateMonthlyPoints { points_config: config(500, 5000, 0), authority: key(1) };
    assert_eq!(
        calculate_monthly_points(&mut empty, T0 + MONTH_IN_SECONDS),
        Err(InstructionError::Reward(RewardError::InvalidPointsCalculation))
    );
    let mut stranger = CalculateMonthlyPoints { points_config: config(500, 5000, 10), authority: key(2) };
    assert_eq!(
        calculate_monthly_points(&mut stranger, T0 + MONTH_IN_SECONDS),
        Err(InstructionError::Reward(RewardError::Unauthorized))
    );
    let mut last = CalculateMonthlyPoints { points_config: config(5, 5000, 10), authority: key(1) };
    last.points_config.current_period = u16::MAX;
    assert_eq!(
        calculate_monthly_points(&mut last, T0 + MONTH_IN_SECONDS),
        Err(InstructionError::Reward(RewardError::InvalidPointsCalculation))
    );
    let mut full = CalculateMonthlyPoints { points_config: config(500, 5000, 700), authority: key(1) };
    assert!(calculate_monthly_points(&mut full, T0 + MONTH_IN_SECONDS).unwrap().meets_threshold);
}

#[test]
fn rollover_clears_month_points() {
    let mut ctx = UpdateContributorPoints {
        contributor: contributor(40),
        points_config: config(500, 5000, 0),
        authority: key(1),
    };
    let ev = update_contributor_points(&mut ctx).unwrap();
    assert_eq!(ev.total_points, 40);
    assert_eq!(ctx.contributor.current_month_points, 0);
    assert_eq!(ctx.contributor.total_points, 40);
    ctx.authority = key(9);
    assert_eq!(
        update_contributor_points(&mut ctx),
        Err(InstructionError::Reward(RewardError::Unauthorized))
    );
}

#[test]
fn reserve_ratio_update_bounds() {
    let mut ctx = UpdateReserveConfig { points_config: config(500, 5000, 0), authority: key(1) };
    assert_eq!(
        update_reserve_config(&mut ctx, Some(10001), None, T0),
        Err(InstructionError::Program(ProgramError::InvalidReserveRatio))
    );
    assert_eq!(ctx.points_config.reserve_ratio, 5000);
    let ev = update_reserve_config(&mut ctx, Some(10000), None, T0).unwrap();
    assert_eq!(ev.reserve_ratio, 10000);
    assert_eq!(ev.monthly_threshold, 500);
    assert_eq!(ctx.points_config.reserve_ratio, 10000);
    assert_eq!(
        update_reserve_config(&mut ctx, None, Some(0), T0),
        Err(InstructionError::Program(ProgramError::InvalidPointsCalculation))
    );
    assert!(update_reserve_config(&mut ctx, Some(0), Some(42), T0).is_ok());
    assert_eq!((ctx.points_config.reserve_ratio, ctx.points_config.monthly_threshold), (0, 42));
    assert_eq!(
        ctx.process(Some(10001), None, T0),
        Err(RewardError::InvalidPointsCalculation)
    );
}

#[test]
fn reserve_transfer_and_deposit() {
    let mut ctx = ManageReserve {
        points_config: config(500, 5000, 10),
        reserve_vault: TokenAccount { key: key(20), amount: 50 },
        distribution_vault: TokenAccount { key: key(21), amount: 0 },
        reserve_vault_authority: key(22),
        distribution_vault_authority: key(23),
        authority: key(1),
    };
    assert_eq!(
        process_reserve_transfer(&mut ctx, 0, T0),
        Err(InstructionError::Program(ProgramError::InvalidAmount))
    );
    assert_eq!(
        process_reserve_transfer(&mut ctx, 51, T0),
        Err(InstructionError::Reward(RewardError::InsufficientBalance))
    );
    let ev = process_reserve_transfer(&mut ctx, 50, T0).unwrap();
    assert_eq!((ev.amount, ev.from_reserve, ev.to_distribution), (50, key(20), key(21)));
    assert_eq!((ctx.reserve_vault.amount, ctx.distribution_vault.amount), (0, 50));
    assert_eq!(ctx.points_config.period_total_points, 10);
    let dep = process_add_to_reserve(&mut ctx, 5, T0 + 1).unwrap();
    assert_eq!((dep.amount, dep.new_reserve_balance, dep.timestamp), (5, 5, T0 + 1));
    assert_eq!((ctx.reserve_vault.amount, ctx.distribution_vault.amount), (5, 45));
    assert_eq!(ctx.points_config.period_total_points, 10);
    assert_eq!(
        process_add_to_reserve(&mut ctx, 46, T0),
        Err(InstructionError::Reward(RewardError::InsufficientBalance))
    );
    assert_eq!(
        process_add_to_reserve(&mut ctx, 0, T0),
        Err(InstructionError::Program(ProgramError::InvalidAmount))
    );
    ctx.authority = key(2);
    assert_eq!(
        process_add_to_reserve(&mut ctx, 5, T0),
        Err(InstructionError::Reward(RewardError::Unauthorized))
    );
}

#[test]
fn reserve_moves_refuse_balance_overflow() {
    let mut ctx = ManageReserve {
        points_config: config(500, 5000, 10),
        reserve_vault: TokenAccount { key: key(20), amount: 50 },
        distribution_vault: TokenAccount { key: key(21), amount: u64::MAX },
        reserve_vault_authority: key(22),
        distribution_vault_authority: key(23),
        authority: key(1),
    };
    let before = ctx;
    assert_eq!(
        process_reserve_transfer(&mut ctx, 1, T0),
        Err(InstructionError::Reward(RewardError::ReserveCalculationError))
    );
    ctx.reserve_vault.amount = u64::MAX;
    ctx.distribution_vault.amount = 10;
    assert_eq!(
        process_add_to_reserve(&mut ctx, 1, T0),
        Err(InstructionError::Reward(RewardError::ReserveCalculationError))
    );
    ctx.reserve_vault.amount = 50;
    ctx.distribution_vault.amount = u64::MAX;
    assert_eq!(ctx, before);
}

#[test]
fn close_below_threshold_with_huge_total() {
    let mut cfg = config(u64::MAX, 10000, u64::MAX - 1);
    cfg.authority = key(1);
    let mut ctx = CalculateMonthlyPoints { points_config: cfg, authority: key(1) };
    let ev = calculate_monthly_points(&mut ctx, T0 + MONTH_IN_SECONDS).unwrap();
    assert_eq!(ev.total_points, u64::MAX - 1);
    assert!(!ev.meets_threshold);
    assert_eq!(ctx.points_config.period_total_points, 0);
}

#[test]
fn setup_instructions() {
    let mut init = Initialize { points_config: PointsConfig::default(), authority: key(1) };
    let args = InitializeArgs { monthly_threshold: 500, reserve_ratio: 5000, max_points_per_type: 1000 };
    let ev = initialize(&mut init, args, T0, 254).unwrap();
    assert_eq!(ev.reserve_ratio, 5000);
    assert_eq!(init.points_config.current_period, 1);
    assert_eq!(init.points_config.authority, key(1));
    assert_eq!(init.points_config.last_calculation_time, T0);
    assert_eq!(init.points_config.bump, 254);
    let bad = InitializeArgs { reserve_ratio: 10001, ..args };
    assert_eq!(
        initialize(&mut init, bad, T0, 0),
        Err(InstructionError::Program(ProgramError::InvalidReserveRatio))
    );
    let mut cc = CreateContributor { contributor: contributor(5), authority: key(8) };
    let ev = create_contributor(&mut cc, T0, 3).unwrap();
    assert_eq!(ev.authority, key(8));
    assert_eq!(cc.contributor, Contributor { authority: key(8), bump: 3, ..Contributor::default() });
}

#[test]
fn validators_and_messages() {
    assert_eq!(validate_impact_score(0), Err(ProgramError::InvalidImpactScore));
    assert_eq!(validate_impact_score(1), Ok(()));
    assert_eq!(validate_impact_score(5), Ok(()));
    assert_eq!(validate_impact_score(6), Err(ProgramError::InvalidImpactScore));
    assert_eq!(validate_points(0), Err(ProgramError::InvalidPointsCalculation));
    assert_eq!(validate_points(1), Ok(()));
    assert_eq!(validate_reserve_ratio(10000), Ok(()));
    assert_eq!(validate_reserve_ratio(10001), Err(ProgramError::InvalidReserveRatio));
    assert_eq!(ProgramError::InvalidAmount.message(), "Invalid amount");
    assert_eq!(RewardError::Unauthorized.message(), "Unauthorized access");
    assert!(key(1).same_as(&key(1)));
    let mut other = [1u8; 32];
    other[31] = 2;
    assert!(!key(1).same_as(&Pubkey::new(other)));
}
