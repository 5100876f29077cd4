use vstd::prelude::*;

use crate::account::{Pubkey, TokenAccount};
use crate::contributor::Contributor;
use crate::errors::RewardError;
use crate::points::PointsConfig;

verus! {

/// The running account of one period's payouts.
#[derive(Clone, Copy, Debug, Default, PartialEq, Eq)]
pub struct DistributionPeriod {
    pub period: u16,
    pub total_tokens: u64,
    pub tokens_distributed: u64,
    pub total_points: u64,
    pub is_completed: bool,
    pub start_time: i64,
    pub end_time: i64,
    pub bump: u8,
}

/// The records that paying one participant touches. The reward vault is the
/// pool paid from; the transfer itself is made by the caller.
#[derive(Clone, Copy, Debug, Default, PartialEq, Eq)]
pub struct DistributeTokens {
    pub points_config: PointsConfig,
    pub contributor: Contributor,
    pub reward_vault: TokenAccount,
    pub contributor_token_account: TokenAccount,
    pub reward_vault_authority: Pubkey,
    pub authority: Pubkey,
    pub distribution_period: DistributionPeriod,
}

/// Reported when a participant is paid: `amount` is what the caller moves
/// from the reward vault to the participant's token account.
#[derive(Clone, Copy, Debug, PartialEq, Eq)]
pub struct TokensDistributed {
    pub contributor: Pubkey,
    pub amount: u64,
    pub period: u16,
    pub timestamp: i64,
}

/// A participant's proportional share of `releasable`, rounded down.
pub open spec fn payout_share(releasable: int, points: u64, total_points: u64) -> int {
    releasable * (points as int) / (total_points as int)
}

impl DistributeTokens {
    /// The part of the reward vault that the open period may release.
    pub open spec fn releasable(self) -> int {
        self.points_config.releasable(self.points_config.period_total_points, self.reward_vault.amount)
    }

    /// This participant's share of what the period releases.
    pub open spec fn share(self) -> int {
        payout_share(
            self.releasable(),
            self.contributor.current_month_points,
            self.points_config.period_total_points,
        )
    }

    /// Whether this participant or the period has no points to pay on.
    pub open spec fn nothing_accrued(self) -> bool {
        self.points_config.period_total_points == 0 || self.contributor.current_month_points == 0
    }

    /// Whether this participant counts as already paid at time `now`.
    ///
    /// A participant is paid at most once per period. The open period began
    /// at the last close, so a participant that has been paid at all (every
    /// payout is above zero, so its claimed total is then positive) and
    /// whose last payout came at or after that close is refused, as is one
    /// whose last payout came at or after `now`. A participant never paid is
    /// never refused as already paid, whenever the open period began.
    pub open spec fn already_claimed(self, now: i64) -> bool {
        self.contributor.last_claim_time >= now || (self.contributor.tokens_claimed > 0
            && self.contributor.last_claim_time >= self.points_config.last_calculation_time)
    }

    /// Why paying this participant at time `now` is refused, if it is.

    pub open spec fn payout_failure(self, now: i64) -> Option<RewardError> {
        if self.already_claimed(now) {
            Some(RewardError::DistributionAlreadyProcessed)
        } else if self.nothing_accrued() {
            Some(RewardError::InsufficientBalance)
        } else if self.releasable() > u64::MAX || self.share() > u64::MAX {
            Some(RewardError::InvalidPointsCalculation)
        } else if self.share() == 0 {
            Some(RewardError::InsufficientBalance)
        } else if self.contributor.tokens_claimed + self.share() > u64::MAX
            || self.distribution_period.tokens_distributed + self.share() > u64::MAX {
            Some(RewardError::InvalidPointsCalculation)
        } else {
            None
        }
    }

    /// The records after this participant is paid its share at time `now`.
    pub open spec fn paid(self, now: i64) -> DistributeTokens {
        let amount = self.share() as u64;
        let dp = self.distribution_period;
        let first = dp.total_tokens == 0;
        DistributeTokens {
            contributor: self.contributor.paid(amount, now),
            distribution_period: DistributionPeriod {
                period: self.points_config.current_period,
                total_tokens: if first {
                    self.reward_vault.amount
                } else {
                    dp.total_tokens
                },
                start_time: if first {
                    now
                } else {
                    dp.start_time
                },
                tokens_distributed: (dp.tokens_distributed + amount) as u64,
                total_points: self.points_config.period_total_points,
                ..dp
            },
            ..self
        }
    }

    /// The participant's share of the period's releasable pool: zero when
    /// the participant or the period has no points; refused when the
    /// releasable pool or the share does not fit in 64 bits.
    pub fn calculate_tokens_for_contributor(&self) -> (r: Result<u64, RewardError>)
        ensures
            self.nothing_accrued() ==> r == Ok::<u64, RewardError>(0),
            !self.nothing_accrued() && (self.releasable() > u64::MAX || self.share() > u64::MAX)
                ==> r == Err::<u64, RewardError>(RewardError::InvalidPointsCalculation),
            !self.nothing_accrued() && self.releasable() <= u64::MAX && self.share() <= u64::MAX
                ==> r == Ok::<u64, RewardError>(self.share() as u64),
    {
        let contributor_points = self.contributor.current_month_points;
        let total_period_points = self.points_config.period_total_points;
        if total_period_points == 0 || contributor_points == 0 {
            return Ok(0);
        }
        let monthly_pool = match self.points_config.calculate_distribution_amount(
            total_period_points,
            self.reward_vault.amount,
        ) {
            Ok(v) => v,
            Err(e) => return Err(e),
        };
        proof {
            assert((monthly_pool as int) * (contributor_points as int) <= (u64::MAX as int) * (
            u64::MAX as int)) by (nonlinear_arith)
                requires
                    monthly_pool <= u64::MAX,
                    contributor_points <= u64::MAX,
            ;
        }
        let product: u128 = (monthly_pool as u128) * (contributor_points as u128);
        let share: u128 = product / (total_period_points as u128);
        if share > u64::MAX as u128 {
            return Err(RewardError::InvalidPointsCalculation);
        }
        Ok(share as u64)
    }

    /// Pays the participant its proportional share of the period's
    /// releasable pool at time `now`: credits the claim, clears the
    /// participant's period points and books the payout on the period
    /// record, seeding the record on the period's first payout. Refused when
    /// the participant was already paid in the open period or at or after
    /// `now`, when there is nothing to pay, or on overflow; then nothing
    /// changes.
    pub fn process(&mut self, now: i64) -> (r: Result<TokensDistributed, RewardError>)
        ensures
            match old(self).payout_failure(now) {
                Some(e) => r == Err::<TokensDistributed, RewardError>(e) && *final(self)
                    == *old(self),
                None => r == Ok::<TokensDistributed, RewardError>(
                    TokensDistributed {
                        contributor: old(self).contributor.authority,
                        amount: old(self).share() as u64,
                        period: old(self).points_config.current_period,
                        timestamp: now,
                    },
                ) && *final(self) == old(self).paid(now),
            },
            old(self).contributor.wf() ==> final(self).contributor.wf(),
    {
        if self.contributor.last_claim_time >= now || (self.contributor.tokens_claimed > 0
            && self.contributor.last_claim_time >= self.points_config.last_calculation_time) {
            return Err(RewardError::DistributionAlreadyProcessed);
        }
        let tokens_to_distribute = match self.calculate_tokens_for_contributor() {
            Ok(v) => v,
            Err(e) => return Err(e),
        };
        if tokens_to_distribute == 0 {
            return Err(RewardError::InsufficientBalance);
        }
        let distributed = match self.distribution_period.tokens_distributed.checked_add(
            tokens_to_distribute,
        ) {
            Some(v) => v,
            None => return Err(RewardError::InvalidPointsCalculation),
        };
        match self.contributor.apply_payout(tokens_to_distribute, now) {
            Ok(()) => {},
            Err(e) => return Err(e),
        }
        self.distribution_period.period = self.points_config.current_period;
        if self.distribution_period.total_tokens == 0 {
            self.distribution_period.total_tokens = self.reward_vault.amount;
            self.distribution_period.start_time = now;
        }
        self.distribution_period.tokens_distributed = distributed;
        self.distribution_period.total_points = self.points_config.period_total_points;
        Ok(
            TokensDistributed {
                contributor: self.contributor.authority,
                amount: tokens_to_distribute,
                period: self.points_config.current_period,
                timestamp: now,
            },
        )
    }
}

/// The points of a list of participants, added up.
pub open spec fn sum_points(points: Seq<u64>) -> int
    decreases points.len(),
{
    if points.len() == 0 {
        0
    } else {
        sum_points(points.drop_last()) + points.last()
    }
}

/// The shares of `releasable` paid to a list of participants, added up.
pub open spec fn sum_shares(releasable: int, points: Seq<u64>, total_points: u64) -> int
    decreases points.len(),
{
    if points.len() == 0 {
        0
    } else {
        sum_shares(releasable, points.drop_last(), total_points) + payout_share(
            releasable,
            points.last(),
            total_points,
        )
    }
}

proof fn floor_sum_bounds(a: int, b: int, t: int)
    requires
        a >= 0,
        b >= 0,
        t > 0,
    ensures
        a / t + b / t <= (a + b) / t,
        (a + b) / t <= a / t + b / t + 1,
{
    assert(a / t + b / t <= (a + b) / t) by (nonlinear_arith)
        requires
            a >= 0,
            b >= 0,
            t > 0,
    ;
    assert((a + b) / t <= a / t + b / t + 1) by (nonlinear_arith)
        requires
            a >= 0,
            b >= 0,
            t > 0,
    ;
}

proof fn sum_shares_bounds(releasable: int, points: Seq<u64>, total_points: u64)
    requires
        releasable >= 0,
        total_points > 0,
    ensures
        sum_points(points) >= 0,
        sum_shares(releasable, points, total_points) <= releasable * sum_points(points)
            / (total_points as int),
        sum_shares(releasable, points, total_points) + points.len() >= releasable * sum_points(
            points,
        ) / (total_points as int),
    decreases points.len(),
{
    if points.len() > 0 {
        let prefix = points.drop_last();
        let c = points.last();
        let t = total_points as int;
        sum_shares_bounds(releasable, prefix, total_points);
        let s = sum_points(prefix);
        assert(releasable * s >= 0) by (nonlinear_arith)
            requires
                releasable >= 0,
                s >= 0,
        ;
        assert(releasable * (c as int) >= 0) by (nonlinear_arith)
            requires
                releasable >= 0,
        ;
        assert(releasable * (s + c) == releasable * s + releasable * (c as int)) by (nonlinear_arith);
        floor_sum_bounds(releasable * s, releasable * (c as int), t);
    }
}

/// However many participants are paid in one period, the payouts together
/// never exceed what the period releases, as long as their points are part
/// of the period's total. When their points make up the whole total, the
/// undistributed remainder from rounding down is at most one unit per
/// participant.
pub proof fn payouts_within_releasable(releasable: int, points: Seq<u64>, total_points: u64)
    requires
        releasable >= 0,
        total_points > 0,
        sum_points(points) <= total_points,
    ensures
        sum_shares(releasable, points, total_points) <= releasable,
        sum_points(points) == total_points ==> releasable - sum_shares(
            releasable,
            points,
            total_points,
        ) <= points.len(),
{
    sum_shares_bounds(releasable, points, total_points);
    let t = total_points as int;
    let s = sum_points(points);
    assert(releasable * s / t <= releasable) by (nonlinear_arith)
        requires
            releasable >= 0,
            0 <= s <= t,
            t > 0,
    ;
    if s == t {
        assert(releasable * s / t == releasable) by (nonlinear_arith)
            requires
                s == t,
                t > 0,
        ;
    }
}

/// The period points of the participants of a list of payout calls.
pub open spec fn call_points(calls: Seq<DistributeTokens>) -> Seq<u64>
    decreases calls.len(),
{
    if calls.len() == 0 {
        Seq::empty()
    } else {
        call_points(calls.drop_last()).push(calls.last().contributor.current_month_points)
    }
}

/// What a list of payout calls pays, added up: each call pays its share.
pub open spec fn sum_paid(calls: Seq<DistributeTokens>) -> int
    decreases calls.len(),
{
    if calls.len() == 0 {
        0
    } else {
        sum_paid(calls.drop_last()) + calls.last().share()
    }
}

proof fn sum_paid_bounded(cfg: PointsConfig, pool: u64, calls: Seq<DistributeTokens>)
    requires
        cfg.wf(),
        cfg.period_total_points > 0,
        forall|i: int|
            0 <= i < calls.len() ==> (#[trigger] calls[i]).points_config == cfg
                && calls[i].reward_vault.amount <= pool,
    ensures
        sum_paid(calls) <= sum_shares(
            cfg.releasable(cfg.period_total_points, pool),
            call_points(calls),
            cfg.period_total_points,
        ),
        (forall|i: int| 0 <= i < calls.len() ==> (#[trigger] calls[i]).reward_vault.amount == pool)
            ==> sum_paid(calls) == sum_shares(
            cfg.releasable(cfg.period_total_points, pool),
            call_points(calls),
            cfg.period_total_points,
        ),
    decreases calls.len(),
{
    if calls.len() > 0 {
        let prefix = calls.drop_last();
        let c = calls.last();
        assert(c == calls[calls.len() - 1]);
        assert forall|i: int| 0 <= i < prefix.len() implies (#[trigger] prefix[i]).points_config
            == cfg && prefix[i].reward_vault.amount <= pool by {
            assert(prefix[i] == calls[i]);
        }
        sum_paid_bounded(cfg, pool, prefix);
        if forall|i: int| 0 <= i < calls.len() ==> (#[trigger] calls[i]).reward_vault.amount == pool {
            assert forall|i: int| 0 <= i < prefix.len() implies (
            #[trigger] prefix[i]).reward_vault.amount == pool by {
                assert(prefix[i] == calls[i]);
            }
        }
        let pts = call_points(calls);
        assert(pts.drop_last() =~= call_points(prefix));
        assert(pts.last() == c.contributor.current_month_points);
        let t = cfg.period_total_points;
        let big = cfg.releasable(t, pool);
        let small = cfg.releasable(t, c.reward_vault.amount);
        let v = c.reward_vault.amount;
        let ratio = cfg.reserve_ratio as int;
        assert(0 <= small <= big) by {
            if t < cfg.monthly_threshold {
                assert((v as int) * ratio <= (pool as int) * ratio) by (nonlinear_arith)
                    requires
                        v <= pool,
                        ratio >= 0,
                ;
                assert((v as int) * ratio >= 0) by (nonlinear_arith)
                    requires
                        ratio >= 0,
                ;
                assert((v as int) * ratio / 10000 <= (pool as int) * ratio / 10000) by (
                nonlinear_arith)
                    requires
                        (v as int) * ratio <= (pool as int) * ratio,
                ;
            }
        }
        let cp = c.contributor.current_month_points as int;
        assert(small * cp / (t as int) <= big * cp / (t as int)) by (nonlinear_arith)
            requires
                0 <= small <= big,
                cp >= 0,
                t > 0,
        ;
    }
}

/// However many participants are paid in one period, with the period's
/// configuration and a reward vault holding at most `pool` at each call,
/// the payouts together never exceed what the period releases of `pool`, as
/// long as the participants' points are part of the period's total. When
/// every call sees exactly `pool` and the participants' points make up the
/// whole total, rounding leaves at most one unit per participant
/// undistributed.
pub proof fn period_payouts_within_releasable(
    cfg: PointsConfig,
    pool: u64,
    calls: Seq<DistributeTokens>,
)
    requires
        cfg.wf(),
        cfg.period_total_points > 0,
        forall|i: int|
            0 <= i < calls.len() ==> (#[trigger] calls[i]).points_config == cfg
                && calls[i].reward_vault.amount <= pool,
        sum_points(call_points(calls)) <= cfg.period_total_points,
    ensures
        sum_paid(calls) <= cfg.releasable(cfg.period_total_points, pool),
        (forall|i: int| 0 <= i < calls.len() ==> (#[trigger] calls[i]).reward_vault.amount == pool)
            && sum_points(call_points(calls)) == cfg.period_total_points ==> cfg.releasable(
            cfg.period_total_points,
            pool,
        ) - sum_paid(calls) <= calls.len(),
{
    let t = cfg.period_total_points;
    let r = cfg.releasable(t, pool);
    assert(r >= 0) by {
        if t < cfg.monthly_threshold {
            assert((pool as int) * (cfg.reserve_ratio as int) >= 0) by (nonlinear_arith);
        }
    }
    sum_paid_bounded(cfg, pool, calls);
    payouts_within_releasable(r, call_points(calls), t);
    call_points_len(calls);
}

proof fn call_points_len(calls: Seq<DistributeTokens>)
    ensures
        call_points(calls).len() == calls.len(),
    decreases calls.len(),
{
    if calls.len() > 0 {
        call_points_len(calls.drop_last());
    }
}

/// A participant that was never paid is not refused as already paid,
/// whenever the open period began, as long as `now` lies after its last
/// claim time.
pub proof fn first_payout_not_refused_as_claimed(s: DistributeTokens, now: i64)
    requires
        s.contributor.tokens_claimed == 0,
        s.contributor.last_claim_time < now,
    ensures
        s.payout_failure(now) != Some(RewardError::DistributionAlreadyProcessed),
{
}

/// After a participant is paid in the open period, paying it again before
/// the period is closed is refused as already processed, at any time.
pub proof fn no_second_payout(s: DistributeTokens, now: i64, later: i64)
    requires
        s.payout_failure(now) is None,
        now >= s.points_config.last_calculation_time,
    ensures
        s.paid(now).payout_failure(later) == Some(RewardError::DistributionAlreadyProcessed),
{
}

} // verus!
