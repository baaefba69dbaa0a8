//! Change events broadcast over the pub/sub channels.

use crate::store::DupValue;
use crate::types::bandwidth::UserBandwidthPrice;
use crate::types::bandwidth::UserBandwidthPriceV;
use crate::types::connection::ProxyAccData;
use crate::types::connection::ProxyAccDataV;
use crate::types::task::UserTask;
use crate::types::task::UserTaskV;
use vstd::prelude::*;

verus! {

/// Identifying fields of a peer attached to a control node.
#[derive(Debug, Clone, PartialEq, Eq)]
pub struct PeerChangedInfo {
    pub uuid: String,
    pub login_session_id: String,
    pub ip_u32: u32,
}

/// Abstract value of a peer record.
pub ghost struct PeerChangedInfoV {
    pub uuid: Seq<char>,
    pub login_session_id: Seq<char>,
    pub ip_u32: u32,
}

impl View for PeerChangedInfo {
    type V = PeerChangedInfoV;

    open spec fn view(&self) -> PeerChangedInfoV {
        PeerChangedInfoV {
            uuid: self.uuid@,
            login_session_id: self.login_session_id@,
            ip_u32: self.ip_u32,
        }
    }
}

impl DupValue for PeerChangedInfo {
    fn dup(&self) -> (r: Self) {
        PeerChangedInfo {
            uuid: self.uuid.clone(),
            login_session_id: self.login_session_id.clone(),
            ip_u32: self.ip_u32,
        }
    }
}

/// A peer lifecycle transition.
#[derive(Debug, Clone, PartialEq, Eq)]
pub enum PeerChanged {
    Connected(PeerChangedInfo),
    Disconnected(PeerChangedInfo),
}

/// Abstract value of a peer lifecycle transition.
pub ghost enum PeerChangedV {
    Connected(PeerChangedInfoV),
    Disconnected(PeerChangedInfoV),
}

impl View for PeerChanged {
    type V = PeerChangedV;

    open spec fn view(&self) -> PeerChangedV {
        match self {
            PeerChanged::Connected(info) => PeerChangedV::Connected(info@),
            PeerChanged::Disconnected(info) => PeerChangedV::Disconnected(info@),
        }
    }
}

impl PeerChanged {
    /// Produces a copy with the same abstract value.
    pub fn dup(&self) -> (r: Self)
        ensures
            r@ == self@,
    {
        match self {
            PeerChanged::Connected(info) => PeerChanged::Connected(info.dup()),
            PeerChanged::Disconnected(info) => PeerChanged::Disconnected(info.dup()),
        }
    }
}

/// A proxy-account lifecycle transition.  `RefreshAll` carries no record: it
/// tells consumers to drop cached accounts and reload from the source of
/// truth.
#[derive(Debug, Clone, PartialEq, Eq)]
pub enum ProxyAccChanged {
    Created(ProxyAccData),
    Updated(ProxyAccData),
    Deleted(String),
    RefreshAll,
}

/// Abstract value of a proxy-account lifecycle transition.
pub ghost enum ProxyAccChangedV {
    Created(ProxyAccDataV),
    Updated(ProxyAccDataV),
    Deleted(Seq<char>),
    RefreshAll,
}

impl View for ProxyAccChanged {
    type V = ProxyAccChangedV;

    open spec fn view(&self) -> ProxyAccChangedV {
        match self {
            ProxyAccChanged::Created(pad) => ProxyAccChangedV::Created(pad@),
            ProxyAccChanged::Updated(pad) => ProxyAccChangedV::Updated(pad@),
            ProxyAccChanged::Deleted(id) => ProxyAccChangedV::Deleted(id@),
            ProxyAccChanged::RefreshAll => ProxyAccChangedV::RefreshAll,
        }
    }
}


impl ProxyAccChanged {
    /// Produces a copy with the same abstract value.
    pub fn dup(&self) -> (r: Self)
        ensures
            r@ == self@,
    {
        match self {
            ProxyAccChanged::Created(pad) => ProxyAccChanged::Created(pad.dup()),
            ProxyAccChanged::Updated(pad) => ProxyAccChanged::Updated(pad.dup()),
            ProxyAccChanged::Deleted(id) => ProxyAccChanged::Deleted(id.clone()),
            ProxyAccChanged::RefreshAll => ProxyAccChanged::RefreshAll,
        }
    }
}

/// A broadcast payload: the serialized form on the wire is one of these
/// records, tagged by the channel it is sent on.
#[derive(Debug, Clone, PartialEq, Eq)]
pub enum ChangeEvent {
    Peer(PeerChanged),
    Price(UserBandwidthPrice),
    ProxyAcc(ProxyAccChanged),
    Task(UserTask),
}

/// Abstract value of a broadcast payload.
pub ghost enum ChangeEventV {
    Peer(PeerChangedV),
    Price(UserBandwidthPriceV),
    ProxyAcc(ProxyAccChangedV),
    Task(UserTaskV),
}

impl View for ChangeEvent {
    type V = ChangeEventV;

    open spec fn view(&self) -> ChangeEventV {
        match self {
            ChangeEvent::Peer(e) => ChangeEventV::Peer(e@),
            ChangeEvent::Price(e) => ChangeEventV::Price(e@),
            ChangeEvent::ProxyAcc(e) => ChangeEventV::ProxyAcc(e@),
            ChangeEvent::Task(e) => ChangeEventV::Task(e@),
        }
    }
}


impl ChangeEvent {
    /// Produces a copy with the same abstract value.
    pub fn dup(&self) -> (r: Self)
        ensures
            r@ == self@,
    {
        match self {
            ChangeEvent::Peer(e) => ChangeEvent::Peer(e.dup()),
            ChangeEvent::Price(e) => ChangeEvent::Price(e.dup()),
            ChangeEvent::ProxyAcc(e) => ChangeEvent::ProxyAcc(e.dup()),
            ChangeEvent::Task(e) => ChangeEvent::Task(e.dup()),
        }
    }
}

} // verus!
