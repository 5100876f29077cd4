use vstd::prelude::*;

verus! {

/// Failures of the accounting rules themselves.
#[derive(Clone, Copy, Debug, PartialEq, Eq, Structural)]
pub enum RewardError {
    InvalidContributionAmount,
    InvalidPointsCalculation,
    InsufficientBalance,
    DistributionPeriodNotEnded,
    ContributorNotFound,
    Unauthorized,
    InvalidContributionType,
    DistributionAlreadyProcessed,
    BelowDistributionThreshold,
    ReserveCalculationError,
}

impl RewardError {
    /// The message of each failure.
    pub open spec fn message_text(self) -> Seq<char> {
        match self {
            RewardError::InvalidContributionAmount => "Contribution amount must be greater than zero"@,
            RewardError::InvalidPointsCalculation => "Invalid points calculation"@,
            RewardError::InsufficientBalance => "Insufficient token balance for distribution"@,
            RewardError::DistributionPeriodNotEnded => "Distribution period not ended"@,
            RewardError::ContributorNotFound => "Contributor not found"@,
            RewardError::Unauthorized => "Unauthorized access"@,
            RewardError::InvalidContributionType => "Invalid contribution type"@,
            RewardError::DistributionAlreadyProcessed => "Monthly distribution already processed"@,
            RewardError::BelowDistributionThreshold => "Below minimum threshold for distribution"@,
            RewardError::ReserveCalculationError => "Reserve calculation error"@,
        }
    }

    /// The human-readable message attached to each failure.
    pub fn message(&self) -> (r: &'static str)
        ensures
            r@ == self.message_text(),
    {
        match self {
            RewardError::InvalidContributionAmount => "Contribution amount must be greater than zero",
            RewardError::InvalidPointsCalculation => "Invalid points calculation",
            RewardError::InsufficientBalance => "Insufficient token balance for distribution",
            RewardError::DistributionPeriodNotEnded => "Distribution period not ended",
            RewardError::ContributorNotFound => "Contributor not found",
            RewardError::Unauthorized => "Unauthorized access",
            RewardError::InvalidContributionType => "Invalid contribution type",
            RewardError::DistributionAlreadyProcessed => "Monthly distribution already processed",
            RewardError::BelowDistributionThreshold => "Below minimum threshold for distribution",
            RewardError::ReserveCalculationError => "Reserve calculation error",
        }
    }
}

} // verus!
