//! Connection events and proxy-account records.

use crate::store::DupValue;
use vstd::prelude::*;

verus! {

/// A connection-plane event as relayed to downstream consumers.
#[derive(Debug, Clone, PartialEq, Eq)]
pub enum ConnectionEvent {
    /// peer_id
    PeerConnected(String),
    /// peer_id
    PeerDisconnected(String),
    /// peer_id, peer stats
    PeerStats(String, PeerStats),
    /// client_id, assigned_peer_id
    ClientProcessed(String, String),
}

/// Transfer counters of one peer serving one client.
#[derive(Debug, Clone, PartialEq, Eq)]
pub struct PeerStats {
    pub peer_id: String,
    pub client_id: String,
    pub download: u64,
}

/// Managed proxy-account credential set.  The rotation period is carried in
/// seconds; allow-listed addresses are carried in their text form.
#[derive(Debug, Clone, PartialEq, Eq)]
pub struct ProxyAccData {
    pub client_id: String,
    pub username: String,
    pub password: String,
    pub ip_rotation_period: u64,
    pub whitelist_ip_list: Vec<String>,
}

/// Abstract value of a proxy-account record.
pub ghost struct ProxyAccDataV {
    pub client_id: Seq<char>,
    pub username: Seq<char>,
    pub password: Seq<char>,
    pub ip_rotation_period: u64,
    pub whitelist_ip_list: Seq<Seq<char>>,
}

impl View for ProxyAccData {
    type V = ProxyAccDataV;

    open spec fn view(&self) -> ProxyAccDataV {
        ProxyAccDataV {
            client_id: self.client_id@,
            username: self.username@,
            password: self.password@,
            ip_rotation_period: self.ip_rotation_period,
            whitelist_ip_list: self.whitelist_ip_list.deep_view(),
        }
    }
}

impl DupValue for ProxyAccData {
    fn dup(&self) -> (r: Self) {
        let mut wl: Vec<String> = Vec::new();
        let mut i: usize = 0;
        while i < self.whitelist_ip_list.len()
            invariant
                i <= self.whitelist_ip_list@.len(),
                wl@.len() == i,
                forall|j: int| 0 <= j < i ==> (#[trigger] wl@[j])@ == self.whitelist_ip_list@[j]@,
            decreases self.whitelist_ip_list@.len() - i,
        {
            wl.push(self.whitelist_ip_list[i].clone());
            i += 1;
        }
        proof {
            assert(wl.deep_view() =~= self.whitelist_ip_list.deep_view());
        }
        ProxyAccData {
            client_id: self.client_id.clone(),
            username: self.username.clone(),
            password: self.password.clone(),
            ip_rotation_period: self.ip_rotation_period,
            whitelist_ip_list: wl,
        }
    }
}

/// Credentials presented by a client for verification.
#[derive(Debug, Clone, PartialEq, Eq)]
pub struct VerifyProxyAccData {
    pub username: String,
    pub password: String,
}

} // verus!
