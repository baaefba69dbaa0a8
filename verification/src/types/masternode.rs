//! Control-node transfer records.

use vstd::prelude::*;

verus! {

/// Bind points and region of one control node.
#[derive(Debug, Clone, PartialEq, Eq)]
pub struct MasternodeInfo {
    pub region: String,
    pub peer_bind: String,
    pub client_bind: String,
    pub control_bind: String,
    pub web_bind: String,
    pub root_ca: Option<String>,
}

/// Result of asking for a control-node assignment.
#[derive(Debug, Clone, PartialEq, Eq)]
pub struct AssignMasternodeRes {
    pub masternode: Option<MasternodeInfo>,
}

} // verus!
