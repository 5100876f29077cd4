use vstd::prelude::*;

use crate::account::{Pubkey, TokenAccount};
use crate::errors::RewardError;
use crate::points::PointsConfig;

verus! {

/// The records that moving tokens between the reserve and the distribution
/// pool touches. The engine books each move on the two vault balances it is
/// given; the transfer itself is made by the caller.
#[derive(Clone, Copy, Debug, Default, PartialEq, Eq)]
pub struct ManageReserve {
    pub points_config: PointsConfig,
    pub reserve_vault: TokenAccount,
    pub distribution_vault: TokenAccount,
    pub reserve_vault_authority: Pubkey,
    pub distribution_vault_authority: Pubkey,
    pub authority: Pubkey,
}

/// The records that changing the reserve settings touches.
#[derive(Clone, Copy, Debug, Default, PartialEq, Eq)]
pub struct UpdateReserveConfig {
    pub points_config: PointsConfig,
    pub authority: Pubkey,
}

/// Reported when tokens move from the reserve to the distribution pool.
#[derive(Clone, Copy, Debug, PartialEq, Eq)]
pub struct ReserveTransfer {
    pub amount: u64,
    pub timestamp: i64,
    pub from_reserve: Pubkey,
    pub to_distribution: Pubkey,
}

/// Reported when tokens move from the distribution pool to the reserve;
/// `new_reserve_balance` is the reserve vault's balance after the move.
#[derive(Clone, Copy, Debug, PartialEq, Eq)]
pub struct ReserveDeposit {
    pub amount: u64,
    pub timestamp: i64,
    pub new_reserve_balance: u64,
}

/// Reported when the reserve settings change; it carries the settings now
/// in force.
#[derive(Clone, Copy, Debug, PartialEq, Eq)]
pub struct ReserveConfigUpdated {
    pub reserve_ratio: u16,
    pub monthly_threshold: u64,
    pub timestamp: i64,
}

/// Whether a ratio is given and lies above 10000 basis points.
pub open spec fn ratio_out_of_range(new_reserve_ratio: Option<u16>) -> bool {
    match new_reserve_ratio {
        Some(r) => r > 10000,
        None => false,
    }
}

/// Why a settings change is refused, if it is: a ratio above 100% or a zero
/// threshold.
pub open spec fn config_update_failure(
    new_reserve_ratio: Option<u16>,
    new_monthly_threshold: Option<u64>,
) -> Option<RewardError> {
    if ratio_out_of_range(new_reserve_ratio) {
        Some(RewardError::InvalidPointsCalculation)
    } else if new_monthly_threshold == Some(0u64) {
        Some(RewardError::InvalidPointsCalculation)
    } else {
        None
    }
}

/// The configuration with each given setting replaced.
pub open spec fn config_updated(
    c: PointsConfig,
    new_reserve_ratio: Option<u16>,
    new_monthly_threshold: Option<u64>,
) -> PointsConfig {
    PointsConfig {
        reserve_ratio: match new_reserve_ratio {
            Some(r) => r,
            None => c.reserve_ratio,
        },
        monthly_threshold: match new_monthly_threshold {
            Some(t) => t,
            None => c.monthly_threshold,
        },
        ..c
    }
}

impl ManageReserve {
    /// Only the configuration's authority may move reserve tokens.
    pub fn check_constraints(&self) -> (r: Result<(), RewardError>)
        ensures
            r == if self.points_config.authority.bytes@ == self.authority.bytes@ {
                Ok::<(), RewardError>(())
            } else {
                Err::<(), RewardError>(RewardError::Unauthorized)
            },
    {
        if self.points_config.authority.same_as(&self.authority) {
            Ok(())
        } else {
            Err(RewardError::Unauthorized)
        }
    }

    /// Why moving `amount` from the reserve to the distribution pool is
    /// refused, if it is: the reserve holds less, or the pool's balance
    /// would overflow.
    pub open spec fn release_failure(self, amount: u64) -> Option<RewardError> {
        if self.reserve_vault.amount < amount {
            Some(RewardError::InsufficientBalance)
        } else if self.distribution_vault.amount + amount > u64::MAX {
            Some(RewardError::ReserveCalculationError)
        } else {
            None
        }
    }

    /// The balances after `amount` moves from the reserve to the
    /// distribution pool.
    pub open spec fn released(self, amount: u64) -> ManageReserve {
        ManageReserve {
            reserve_vault: TokenAccount {
                amount: (self.reserve_vault.amount - amount) as u64,
                ..self.reserve_vault
            },
            distribution_vault: TokenAccount {
                amount: (self.distribution_vault.amount + amount) as u64,
                ..self.distribution_vault
            },
            ..self
        }
    }

    /// Why moving `amount` from the distribution pool into the reserve is
    /// refused, if it is: the pool holds less, or the reserve's balance
    /// would overflow.
    pub open spec fn deposit_failure(self, amount: u64) -> Option<RewardError> {
        if self.distribution_vault.amount < amount {
            Some(RewardError::InsufficientBalance)
        } else if self.reserve_vault.amount + amount > u64::MAX {
            Some(RewardError::ReserveCalculationError)
        } else {
            None
        }
    }

    /// The balances after `amount` moves from the distribution pool into
    /// the reserve.
    pub open spec fn deposited(self, amount: u64) -> ManageReserve {
        ManageReserve {
            reserve_vault: TokenAccount {
                amount: (self.reserve_vault.amount + amount) as u64,
                ..self.reserve_vault
            },
            distribution_vault: TokenAccount {
                amount: (self.distribution_vault.amount - amount) as u64,
                ..self.distribution_vault
            },
            ..self
        }
    }

    /// Books `amount` moved from the reserve into the distribution pool on
    /// the two balances. The configuration, and with it the period's point
    /// total, is left as it is. Refused when the reserve holds less than
    /// `amount`, or when the pool's balance would overflow; then nothing
    /// changes.
    pub fn process_reserve_transfer(&mut self, amount: u64, now: i64) -> (r: Result<
        ReserveTransfer,
        RewardError,
    >)
        ensures
            match old(self).release_failure(amount) {
                Some(e) => r == Err::<ReserveTransfer, RewardError>(e) && *final(self) == *old(
                    self,
                ),
                None => r == Ok::<ReserveTransfer, RewardError>(
                    ReserveTransfer {
                        amount,
                        timestamp: now,
                        from_reserve: old(self).reserve_vault.key,
                        to_distribution: old(self).distribution_vault.key,
                    },
                ) && *final(self) == old(self).released(amount),
            },
    {
        if self.reserve_vault.amount < amount {
            return Err(RewardError::InsufficientBalance);
        }
        let pool = match self.distribution_vault.amount.checked_add(amount) {
            Some(v) => v,
            None => return Err(RewardError::ReserveCalculationError),
        };
        self.reserve_vault.amount = self.reserve_vault.amount - amount;
        self.distribution_vault.amount = pool;
        Ok(
            ReserveTransfer {
                amount,
                timestamp: now,
                from_reserve: self.reserve_vault.key,
                to_distribution: self.distribution_vault.key,
            },
        )
    }

    /// Books `amount` moved from the distribution pool into the reserve on
    /// the two balances; the report carries the reserve's new balance. The
    /// configuration is left as it is. Refused when the pool holds less than
    /// `amount`, or when the reserve's balance would overflow; then nothing
    /// changes.
    pub fn process_add_to_reserve(&mut self, amount: u64, now: i64) -> (r: Result<
        ReserveDeposit,
        RewardError,
    >)
        ensures
            match old(self).deposit_failure(amount) {
                Some(e) => r == Err::<ReserveDeposit, RewardError>(e) && *final(self) == *old(
                    self,
                ),
                None => r == Ok::<ReserveDeposit, RewardError>(
                    ReserveDeposit {
                        amount,
                        timestamp: now,
                        new_reserve_balance: (old(self).reserve_vault.amount + amount) as u64,
                    },
                ) && *final(self) == old(self).deposited(amount),
            },
    {
        if self.distribution_vault.amount < amount {
            return Err(RewardError::InsufficientBalance);
        }
        let reserve = match self.reserve_vault.amount.checked_add(amount) {
            Some(v) => v,
            None => return Err(RewardError::ReserveCalculationError),
        };
        self.distribution_vault.amount = self.distribution_vault.amount - amount;
        self.reserve_vault.amount = reserve;
        Ok(ReserveDeposit { amount, timestamp: now, new_reserve_balance: reserve })
    }
}

impl UpdateReserveConfig {
    /// Only the configuration's authority may change the settings.
    pub fn check_constraints(&self) -> (r: Result<(), RewardError>)
        ensures
            r == if self.points_config.authority.bytes@ == self.authority.bytes@ {
                Ok::<(), RewardError>(())
            } else {
                Err::<(), RewardError>(RewardError::Unauthorized)
            },
    {
        if self.points_config.authority.same_as(&self.authority) {
            Ok(())
        } else {
            Err(RewardError::Unauthorized)
        }
    }

    /// Replaces the reserve ratio and the monthly threshold, each where one
    /// is given. A ratio above 10000 basis points or a zero threshold is
    /// refused, and then nothing changes.
    pub fn process(
        &mut self,
        new_reserve_ratio: Option<u16>,
        new_monthly_threshold: Option<u64>,
        now: i64,
    ) -> (r: Result<ReserveConfigUpdated, RewardError>)
        ensures
            match config_update_failure(new_reserve_ratio, new_monthly_threshold) {
                Some(e) => r == Err::<ReserveConfigUpdated, RewardError>(e) && *final(self)
                    == *old(self),
                None => {
                    let c = config_updated(
                        old(self).points_config,
                        new_reserve_ratio,
                        new_monthly_threshold,
                    );
                    &&& r == Ok::<ReserveConfigUpdated, RewardError>(
                        ReserveConfigUpdated {
                            reserve_ratio: c.reserve_ratio,
                            monthly_threshold: c.monthly_threshold,
                            timestamp: now,
                        },
                    )
                    &&& final(self).points_config == c
                    &&& final(self).authority == old(self).authority
                },
            },
            old(self).points_config.wf() ==> final(self).points_config.wf(),
    {
        if let Some(ratio) = new_reserve_ratio {
            if ratio > 10000 {
                return Err(RewardError::InvalidPointsCalculation);
            }
        }
        if let Some(threshold) = new_monthly_threshold {
            if threshold == 0 {
                return Err(RewardError::InvalidPointsCalculation);
            }
        }
        if let Some(ratio) = new_reserve_ratio {
            self.points_config.reserve_ratio = ratio;
        }
        if let Some(threshold) = new_monthly_threshold {
            self.points_config.monthly_threshold = threshold;
        }
        Ok(
            ReserveConfigUpdated {
                reserve_ratio: self.points_config.reserve_ratio,
                monthly_threshold: self.points_config.monthly_threshold,
                timestamp: now,
            },
        )
    }
}

} // verus!
