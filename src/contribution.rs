use vstd::prelude::*;

use crate::account::Pubkey;
use crate::errors::RewardError;

verus! {

/// The kinds of work that earn points. The order of the variants is stable.
#[derive(Clone, Copy, Debug, Default, PartialEq, Eq, Structural)]
pub enum ContributionType {
    #[default]
    Code,
    Review,
    Documentation,
    Community,
    Other,
    Testing,
    BugReport,
    PullRequest,
    CodeCommit,
    CodeReview,
}

/// The fixed base score of each kind of contribution.
pub open spec fn base_points(t: ContributionType) -> u64 {
    match t {
        ContributionType::Code => 10,
        ContributionType::Review => 20,
        ContributionType::Documentation => 15,
        ContributionType::Community => 5,
        ContributionType::Other => 5,
        ContributionType::Testing => 15,
        ContributionType::BugReport => 10,
        ContributionType::PullRequest => 30,
        ContributionType::CodeCommit => 10,
        ContributionType::CodeReview => 20,
    }
}

impl ContributionType {
    pub fn base_points(&self) -> (r: u64)
        ensures
            r == base_points(*self),
            5 <= r <= 30,
    {
        match self {
            ContributionType::Code => 10,
            ContributionType::Review => 20,
            ContributionType::Documentation => 15,
            ContributionType::Community => 5,
            ContributionType::Other => 5,
            ContributionType::Testing => 15,
            ContributionType::BugReport => 10,
            ContributionType::PullRequest => 30,
            ContributionType::CodeCommit => 10,
            ContributionType::CodeReview => 20,
        }
    }
}

/// One submitted unit of work: written once, never changed afterwards.
#[derive(Clone, Copy, Debug, Default, PartialEq, Eq)]
pub struct Contribution {
    pub contributor: Pubkey,
    pub contribution_type: ContributionType,
    pub points: u64,
    pub timestamp: i64,
    pub metadata: [u8; 32],
    pub is_verified: bool,
    pub period: u16,
    pub bump: u8,
}

impl Contribution {
    /// The base score of this contribution's kind, before impact and cap.
    pub fn calculate_points(&self) -> (r: Result<u64, RewardError>)
        ensures
            r == Ok::<u64, RewardError>(base_points(self.contribution_type)),
    {
        Ok(self.contribution_type.base_points())
    }
}

} // verus!
