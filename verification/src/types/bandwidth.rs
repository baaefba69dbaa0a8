//! Bandwidth pricing and session records.

use crate::store::DupValue;
use vstd::prelude::*;

verus! {

/// Advertised bandwidth price for one user address.
#[derive(Debug, Clone, PartialEq, Eq)]
pub struct UserBandwidthPrice {
    pub user_addr: String,
    pub rate_per_kb: i64,
    pub rate_per_second: i64,
}

/// Abstract value of a price record.
pub ghost struct UserBandwidthPriceV {
    pub user_addr: Seq<char>,
    pub rate_per_kb: i64,
    pub rate_per_second: i64,
}

impl View for UserBandwidthPrice {
    type V = UserBandwidthPriceV;

    open spec fn view(&self) -> UserBandwidthPriceV {
        UserBandwidthPriceV {
            user_addr: self.user_addr@,
            rate_per_kb: self.rate_per_kb,
            rate_per_second: self.rate_per_second,
        }
    }
}

impl DupValue for UserBandwidthPrice {
    fn dup(&self) -> (r: Self) {
        UserBandwidthPrice {
            user_addr: self.user_addr.clone(),
            rate_per_kb: self.rate_per_kb,
            rate_per_second: self.rate_per_second,
        }
    }
}

/// A session while it is being metered, before settlement.
#[derive(Debug, Clone, PartialEq, Eq)]
pub struct EphemeralSession {
    pub hash: String,
    pub client_identifier: String,
    pub client_addr: String,
    pub peer_addr: String,
    pub rate_per_kb: u64,
    pub rate_per_second: u64,
    pub bandwidth_usage: u64,
    pub handshaked_at: i64,
    pub end_at: i64,
    pub login_session_id: String,
    pub peer_country_geoname_id: u64,
}

impl EphemeralSession {
    /// Builds the record for a fresh handshake.  The caller supplies the
    /// handshake time in microseconds (stored in seconds) and the session
    /// hash it derived from the session's wire encoding.
    pub fn new(
        client_identifier: String,
        client_addr: String,
        peer_addr: String,
        rate_per_kb: u64,
        rate_per_second: u64,
        login_session_id: String,
        peer_country_geoname_id: u64,
        handshaked_at_micros: i64,
        hash: String,
    ) -> (r: Self)
        requires
            0 <= handshaked_at_micros,
        ensures
            r.hash == hash,
            r.client_identifier == client_identifier,
            r.client_addr == client_addr,
            r.peer_addr == peer_addr,
            r.rate_per_kb == rate_per_kb,
            r.rate_per_second == rate_per_second,
            r.bandwidth_usage == 0,
            r.handshaked_at == handshaked_at_micros / 1_000_000,
            r.end_at == r.handshaked_at,
            r.login_session_id == login_session_id,
            r.peer_country_geoname_id == peer_country_geoname_id,
    {
        let micros = handshaked_at_micros as u64;
        let secs = (micros / 1_000_000) as i64;
        proof {
            assert(micros == handshaked_at_micros);
            assert(micros / 1_000_000 == handshaked_at_micros / 1_000_000);
        }
        EphemeralSession {
            hash,
            client_identifier,
            client_addr,
            peer_addr,
            rate_per_kb,
            rate_per_second,
            bandwidth_usage: 0,
            handshaked_at: secs,
            end_at: secs,
            login_session_id,
            peer_country_geoname_id,
        }
    }
}

/// Lifecycle state of a settled session record.
#[derive(Debug, Clone, PartialEq, Eq)]
pub enum SessionStatus {
    Active,
    Finished,
}

/// Why a session ended.
#[derive(Debug, Clone, PartialEq, Eq)]
pub enum SessionTerminationReason {
    ClientInactive,
    PeerDisconnected,
    SystemShutdown,
    ClientLowBalance,
    RotatedIP,
}

/// A metered session as settled against the ledger.  Hashes and addresses
/// are carried in their canonical text form; fees and rates are plain
/// unsigned amounts.
#[derive(Debug, Clone, PartialEq, Eq)]
pub struct Session {
    pub session_hash: String,
    pub client_identifier: String,
    pub provider_addr: String,
    pub client_addr: String,
    pub rate_per_second: u128,
    pub rate_per_kb: u128,
    pub handshake_at: Option<i64>,
    pub end_at: Option<i64>,
    pub duration: Option<i64>,
    pub bandwidth_usage: Option<i64>,
    pub duration_fee: u128,
    pub bandwidth_fee: u128,
    pub total_fee: u128,
    pub status: SessionStatus,
    pub reason: Option<SessionTerminationReason>,
    pub tx_hash: Option<String>,
    pub peer_country_geoname_id: Option<i64>,
}

impl Session {
    /// Builds a settled session record from its parts.
    pub fn new(
        session_hash: String,
        client_identifier: String,
        provider_addr: String,
        client_addr: String,
        rate_per_second: u128,
        rate_per_kb: u128,
        handshake_at: Option<i64>,
        end_at: Option<i64>,
        duration: Option<i64>,
        bandwidth_usage: Option<i64>,
        duration_fee: u128,
        bandwidth_fee: u128,
        total_fee: u128,
        status: SessionStatus,
        reason: Option<SessionTerminationReason>,
        tx_hash: Option<String>,
        peer_country_geoname_id: Option<i64>,
    ) -> (r: Self)
        ensures
            r == (Session {
                session_hash,
                client_identifier,
                provider_addr,
                client_addr,
                rate_per_second,
                rate_per_kb,
                handshake_at,
                end_at,
                duration,
                bandwidth_usage,
                duration_fee,
                bandwidth_fee,
                total_fee,
                status,
                reason,
                tx_hash,
                peer_country_geoname_id,
            }),
    {
        Session {
            session_hash,
            client_identifier,
            provider_addr,
            client_addr,
            rate_per_second,
            rate_per_kb,
            handshake_at,
            end_at,
            duration,
            bandwidth_usage,
            duration_fee,
            bandwidth_fee,
            total_fee,
            status,
            reason,
            tx_hash,
            peer_country_geoname_id,
        }
    }
}

} // verus!
