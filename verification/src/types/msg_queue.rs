//! Transfer records of the wider event-distribution queues.

use crate::types::bandwidth::EphemeralSession;
use crate::types::bandwidth::SessionTerminationReason;
use vstd::prelude::*;

verus! {

/// A withdrawal to be settled on chain.
#[derive(Debug, Clone, PartialEq, Eq)]
pub struct OnchainWithdrawalRequest {
    pub from: String,
    pub to: String,
    pub amount: i64,
    pub tx_hash: String,
}

/// A balance change pushed to a client.
#[derive(Debug, Clone, PartialEq, Eq)]
pub struct ClientBalanceUpdate {
    pub user_addr: String,
    pub balance: i64,
}

/// Details of a peer disconnect event.
#[derive(Debug, Clone, PartialEq, Eq)]
pub struct PeerDisconnectedExtra {
    pub masternode_id: String,
    pub peer_addr: String,
    pub login_session_id: String,
    pub peer_ip_u32: u32,
}

/// Details of a session-created event.
#[derive(Debug, Clone, PartialEq, Eq)]
pub struct SessionCreatedExtra {
    pub masternode_id: String,
    pub session: EphemeralSession,
}

/// Details of a session-terminated event.
#[derive(Debug, Clone, PartialEq, Eq)]
pub struct SessionTerminatedExtra {
    pub masternode_id: String,
    pub session: EphemeralSession,
    pub reason: SessionTerminationReason,
}

/// Details of a deposit event.
#[derive(Debug, Clone, PartialEq, Eq)]
pub struct DepositExtra {
    pub from: String,
    pub to: String,
    pub amount: u64,
    pub tx_hash: String,
}

/// Details of a withdrawal event.
#[derive(Debug, Clone, PartialEq, Eq)]
pub struct WithdrawalExtra {
    pub user_addr: String,
    pub withdrawal_addr: String,
}

/// Details of a referral event.
#[derive(Debug, Clone, PartialEq, Eq)]
pub struct ReferralExtra {
    pub referrer_addr: String,
    pub referee_addr: String,
}

/// Details of a quest-completed event.
#[derive(Debug, Clone, PartialEq, Eq)]
pub struct QuestCompletedExtra {
    pub user_addr: String,
    pub amount: u64,
    pub amount_u2u: u64,
}

} // verus!
