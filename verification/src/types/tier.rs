//! User tier transfer records.

use vstd::prelude::*;

verus! {

/// A user's current tier and points.
#[derive(Debug, Clone, PartialEq, Eq)]
pub struct UserTier {
    pub user_addr: String,
    pub tier: Tier,
    pub points: i64,
}

/// Reward tiers, lowest first.
#[derive(Debug, Clone, PartialEq, Eq)]
pub enum Tier {
    Unranked,
    Bronze,
    Silver,
    Gold,
    Platinum,
    Diamond,
}

/// A points grant toward a user's tier.
#[derive(Debug, Clone, PartialEq, Eq)]
pub struct TierPoint {
    pub user_addr: String,
    pub points: i64,
    pub created_at: i64,
}

} // verus!
