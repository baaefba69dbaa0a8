//! Reward summary transfer records.

use vstd::prelude::*;

verus! {

/// Totals of a user's rewards.
#[derive(Debug, Clone, PartialEq, Eq)]
pub struct RewardsOverview {
    /// claimed + unclaimed
    pub total_rewards: i64,
    /// unclaimed
    pub unclaimed_rewards: i64,
    /// claimed + unclaimed
    pub total_network_rewards: i64,
    /// claimed + unclaimed
    pub total_task_rewards: i64,
    /// claimed + unclaimed
    pub total_referral_rewards: i64,
    /// claimed + unclaimed
    pub total_commission_rewards: i64,
}

/// Totals of a user's rewards, split by currency.
#[derive(Debug, Clone, PartialEq, Eq)]
pub struct RewardsOverviewV2 {
    /// claimed + unclaimed
    pub total_rewards: i64,
    /// claimed + unclaimed secondary-currency rewards
    pub total_rewards_v2: i64,
    /// unclaimed
    pub unclaimed_rewards: i64,
    /// unclaimed secondary-currency rewards
    pub unclaimed_rewards_v2: i64,
    /// claimed + unclaimed
    pub total_network_rewards: i64,
    pub total_network_rewards_v2: i64,
    /// claimed + unclaimed
    pub total_task_rewards: i64,
    /// claimed + unclaimed
    pub total_referral_rewards: i64,
    pub total_referral_rewards_v2: i64,
    /// claimed + unclaimed
    pub total_commission_rewards: i64,
}

} // verus!
