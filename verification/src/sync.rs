//! The state synchronization service.
//!
//! Every publish operation follows one pattern: resolve the keys, apply the
//! record mutation the event calls for, then broadcast the event — in that
//! order, so consumers that react to a broadcast always see the mutated
//! record.  The first failure is reported tagged with its phase, and a
//! broadcast failure never rolls the mutation back: the record is the
//! authoritative state, the broadcast a best-effort notification.

use crate::bus::Broadcaster;
use crate::errors::StoreError;
use crate::errors::SyncError;
use crate::events::ChangeEvent;
use crate::events::ChangeEventV;
use crate::events::PeerChanged;
use crate::events::PeerChangedInfo;
use crate::events::PeerChangedInfoV;
use crate::events::PeerChangedV;
use crate::events::ProxyAccChanged;
use crate::events::ProxyAccChangedV;
use crate::keys::spec_completed_8_hours_ot_bucket;
use crate::keys::spec_completed_8_hours_ot_chan;
use crate::keys::spec_completed_time_per_day_bucket;
use crate::keys::spec_completed_time_per_day_chan;
use crate::keys::spec_first_time_provider_bucket;
use crate::keys::spec_first_time_provider_chan;
use crate::keys::spec_invite_friend_one_time_chan;
use crate::keys::spec_peers_bucket;
use crate::keys::spec_peers_chan;
use crate::keys::spec_peers_field;
use crate::keys::spec_price_bucket;
use crate::keys::spec_price_chan;
use crate::keys::spec_proxy_acc_bucket;
use crate::keys::spec_proxy_acc_chan;
use crate::keys::spec_withdrawal_reward_bucket;
use crate::keys::spec_withdrawal_reward_chan;
use crate::keys::DPNRedisKey;
use crate::queue::ZStore;
use crate::store::DupValue;
use crate::store::HashStore;
use crate::store::StoreV;
use crate::types::bandwidth::UserBandwidthPrice;
use crate::types::connection::ProxyAccData;
use crate::types::connection::ProxyAccDataV;
use crate::types::task::UserTask;
use vstd::prelude::*;

verus! {

/// The record mutation a peer lifecycle event calls for: a connect writes
/// the peer record, a disconnect deletes it.
pub open spec fn spec_peer_mutation(
    s: StoreV<PeerChangedInfoV>,
    m: Seq<char>,
    st: PeerChangedV,
) -> StoreV<PeerChangedInfoV> {
    match st {
        PeerChangedV::Connected(info) => s.put(
            spec_peers_bucket(m),
            spec_peers_field(info.ip_u32),
            info,
        ),
        PeerChangedV::Disconnected(info) => s.hdel(
            spec_peers_bucket(m),
            spec_peers_field(info.ip_u32),
        ),
    }
}

/// The record mutation a proxy-account lifecycle event calls for.  A
/// creation and an update both overwrite the record; a deletion removes it;
/// `RefreshAll` is a pure signal and touches nothing.
pub open spec fn spec_proxy_mutation(
    s: StoreV<ProxyAccDataV>,
    ch: ProxyAccChangedV,
) -> StoreV<ProxyAccDataV> {
    match ch {
        ProxyAccChangedV::Created(pad) => s.put(spec_proxy_acc_bucket(), pad.client_id, pad),
        ProxyAccChangedV::Updated(pad) => s.put(spec_proxy_acc_bucket(), pad.client_id, pad),
        ProxyAccChangedV::Deleted(id) => s.hdel(spec_proxy_acc_bucket(), id),
        ProxyAccChangedV::RefreshAll => s,
    }
}

/// The synthetic disconnect broadcasts of a peer sweep: one per record, in
/// bucket order.
pub open spec fn spec_disconnect_events(
    chan: Seq<char>,
    fs: Seq<(Seq<char>, PeerChangedInfoV)>,
) -> Seq<(Seq<char>, ChangeEventV)> {
    fs.map_values(
        |p: (Seq<char>, PeerChangedInfoV)|
            (chan, ChangeEventV::Peer(PeerChangedV::Disconnected(p.1))),
    )
}

/// The state synchronization service: one store per entity kind, the peer
/// queues, and the broadcast plane.
pub struct StateSync {
    pub peers: HashStore<PeerChangedInfo>,
    pub prices: HashStore<UserBandwidthPrice>,
    pub proxy_accs: HashStore<ProxyAccData>,
    pub tasks: HashStore<UserTask>,
    pub queues: ZStore,
    pub events: Broadcaster,
}

impl StateSync {
    /// Every component is well-formed.
    pub open spec fn wf(self) -> bool {
        &&& self.peers@.wf()
        &&& self.prices@.wf()
        &&& self.proxy_accs@.wf()
        &&& self.tasks@.wf()
        &&& self.queues@.wf()
    }

    /// A fresh service over an empty, reachable store.
    pub fn new() -> (s: Self)
        ensures
            s.wf(),
            s.peers@.buckets.len() == 0,
            s.peers@.available,
            s.prices@.buckets.len() == 0,
            s.prices@.available,
            s.proxy_accs@.buckets.len() == 0,
            s.proxy_accs@.available,
            s.tasks@.buckets.len() == 0,
            s.tasks@.available,
            s.queues@.sets.len() == 0,
            s.queues@.available,
            s.events@.log.len() == 0,
            s.events@.available,
    {
        StateSync {
            peers: HashStore::new(),
            prices: HashStore::new(),
            proxy_accs: HashStore::new(),
            tasks: HashStore::new(),
            queues: ZStore::new(),
            events: Broadcaster::new(),
        }
    }

    /// Applies a peer lifecycle event: mutates the node's peer bucket, then
    /// broadcasts the event on the node's peer channel.
    pub fn publish_peer(&mut self, masternode_id: String, status: PeerChanged) -> (r: Result<
        (),
        SyncError,
    >)
        requires
            old(self).wf(),
        ensures
            final(self).wf(),
            final(self).prices == old(self).prices,
            final(self).proxy_accs == old(self).proxy_accs,
            final(self).tasks == old(self).tasks,
            final(self).queues == old(self).queues,
            match r {
                Ok(()) => {
                    &&& old(self).peers@.available
                    &&& old(self).events@.available
                    &&& final(self).peers@ == spec_peer_mutation(
                        old(self).peers@,
                        masternode_id@,
                        status@,
                    )
                    &&& final(self).events@ == old(self).events@.sent(
                        spec_peers_chan(masternode_id@),
                        ChangeEventV::Peer(status@),
                    )
                },
                Err(SyncError::Mutation(e)) => {
                    &&& e == StoreError::StoreUnavailable
                    &&& !old(self).peers@.available
                    &&& final(self).peers@ == old(self).peers@
                    &&& final(self).events@ == old(self).events@
                },
                Err(SyncError::Broadcast(e)) => {
                    &&& e == StoreError::StoreUnavailable
                    &&& old(self).peers@.available
                    &&& !old(self).events@.available
                    &&& final(self).peers@ == spec_peer_mutation(
                        old(self).peers@,
                        masternode_id@,
                        status@,
                    )
                    &&& final(self).events@ == old(self).events@
                },
            },
    {
        let chan = DPNRedisKey::get_peers_chan(masternode_id.clone());
        match &status {
            PeerChanged::Connected(info) => {
                let (k, f) = DPNRedisKey::get_peers_kf(masternode_id, info.ip_u32);
                let record = info.dup();
                match self.peers.hset(k, f, record) {
                    Ok(()) => {},
                    Err(e) => {
                        return Err(SyncError::Mutation(e));
                    },
                }
            },
            PeerChanged::Disconnected(info) => {
                let (k, f) = DPNRedisKey::get_peers_kf(masternode_id, info.ip_u32);
                match self.peers.hdel(k, f) {
                    Ok(()) => {},
                    Err(e) => {
                        return Err(SyncError::Mutation(e));
                    },
                }
            },
        }
        match self.events.publish(chan, ChangeEvent::Peer(status)) {
            Ok(()) => Ok(()),
            Err(e) => Err(SyncError::Broadcast(e)),
        }
    }

    /// Enumerates the peer records of one node, in bucket order.
    pub fn get_peers(&self, masternode_id: String) -> (r: Result<Vec<PeerChangedInfo>, StoreError>)
        requires
            self.wf(),
        ensures
            match r {
                Ok(rs) => {
                    &&& self.peers@.available
                    &&& rs@.len() == self.peers@.live_fields(
                        spec_peers_bucket(masternode_id@),
                    ).len()
                    &&& forall|i: int|
                        0 <= i < rs@.len() ==> (#[trigger] rs@[i])@ == self.peers@.live_fields(
                            spec_peers_bucket(masternode_id@),
                        )[i].1
                },
                Err(e) => e == StoreError::StoreUnavailable && !self.peers@.available,
            },
    {
        let (k, _f) = DPNRedisKey::get_peers_kf(masternode_id, 0);
        let pairs = match self.peers.hgetall(k) {
            Ok(p) => p,
            Err(e) => {
                return Err(e);
            },
        };
        let mut rs: Vec<PeerChangedInfo> = Vec::new();
        let mut i: usize = 0;
        while i < pairs.len()
            invariant
                i <= pairs@.len(),
                rs@.len() == i,
                forall|j: int| 0 <= j < i ==> (#[trigger] rs@[j])@ == pairs@[j].1@,
            decreases pairs@.len() - i,
        {
            rs.push(pairs[i].1.dup());
            i += 1;
        }
        Ok(rs)
    }

    /// Sweeps every peer record of one node: broadcasts a synthetic
    /// disconnect for each record, in bucket order, then deletes the whole
    /// bucket.  The first broadcast failure aborts the sweep; broadcasts
    /// already sent are not rolled back.  It must be called when the node
    /// shuts down.
    pub fn remove_all_peers(&mut self, masternode_id: String) -> (r: Result<(), SyncError>)
        requires
            old(self).wf(),
        ensures
            final(self).wf(),
            final(self).prices == old(self).prices,
            final(self).proxy_accs == old(self).proxy_accs,
            final(self).tasks == old(self).tasks,
            final(self).queues == old(self).queues,
            match r {
                Ok(()) => {
                    &&& old(self).peers@.available
                    &&& old(self).peers@.live_fields(spec_peers_bucket(masternode_id@)).len() == 0
                        || old(self).events@.available
                    &&& final(self).peers@ == old(self).peers@.del(spec_peers_bucket(masternode_id@))
                    &&& final(self).events@.log == old(self).events@.log + spec_disconnect_events(
                        spec_peers_chan(masternode_id@),
                        old(self).peers@.live_fields(spec_peers_bucket(masternode_id@)),
                    )
                    &&& final(self).events@.available == old(self).events@.available
                },
                Err(SyncError::Mutation(e)) => {
                    &&& e == StoreError::StoreUnavailable
                    &&& !old(self).peers@.available
                    &&& final(self).peers@ == old(self).peers@
                    &&& final(self).events@ == old(self).events@
                },
                Err(SyncError::Broadcast(e)) => {
                    &&& e == StoreError::StoreUnavailable
                    &&& old(self).peers@.available
                    &&& !old(self).events@.available
                    &&& old(self).peers@.live_fields(spec_peers_bucket(masternode_id@)).len() > 0
                    &&& final(self).peers@ == old(self).peers@
                    &&& final(self).events@ == old(self).events@
                },
            },
    {
        let ghost mv = masternode_id@;
        let ghost chanv = spec_peers_chan(mv);
        let ghost fs = self.peers@.live_fields(spec_peers_bucket(mv));
        let (k, _f) = DPNRedisKey::get_peers_kf(masternode_id.clone(), 0);
        let pairs = match self.peers.hgetall(k) {
            Ok(p) => p,
            Err(e) => {
                return Err(SyncError::Mutation(e));
            },
        };
        let mut i: usize = 0;
        while i < pairs.len()
            invariant
                i <= pairs@.len(),
                pairs@.len() == fs.len(),
                forall|j: int|
                    0 <= j < fs.len() ==> (#[trigger] pairs@[j]).0@ == fs[j].0 && pairs@[j].1@
                        == fs[j].1,
                self.peers == old(self).peers,
                self.prices == old(self).prices,
                self.proxy_accs == old(self).proxy_accs,
                self.tasks == old(self).tasks,
                self.queues == old(self).queues,
                fs == old(self).peers@.live_fields(spec_peers_bucket(mv)),
                old(self).peers@.available,
                old(self).wf(),
                masternode_id@ == mv,
                chanv == spec_peers_chan(mv),
                self.events@.available == old(self).events@.available,
                i > 0 ==> self.events@.available,
                self.events@.log == old(self).events@.log + spec_disconnect_events(
                    chanv,
                    fs.take(i as int),
                ),
            decreases pairs@.len() - i,
        {
            let info = &pairs[i].1;
            let change = PeerChanged::Disconnected(
                PeerChangedInfo {
                    uuid: info.uuid.clone(),
                    login_session_id: info.login_session_id.clone(),
                    ip_u32: info.ip_u32,
                },
            );
            let chan = DPNRedisKey::get_peers_chan(masternode_id.clone());
            let ghost prelog = self.events@.log;
            let ghost evp = (chanv, ChangeEventV::Peer(PeerChangedV::Disconnected(fs[i as int].1)));
            proof {
                assert(chan@ == chanv);
                assert(change@ == PeerChangedV::Disconnected(fs[i as int].1));
            }
            match self.events.publish(chan, ChangeEvent::Peer(change)) {
                Ok(()) => {},
                Err(e) => {
                    proof {
                        assert(i == 0);
                        assert(fs.take(0) =~= Seq::<(Seq<char>, PeerChangedInfoV)>::empty());
                        assert(spec_disconnect_events(chanv, fs.take(0)) =~= Seq::<
                            (Seq<char>, ChangeEventV),
                        >::empty());
                        assert(self.events@.log =~= old(self).events@.log);
                        assert(self.events@ == old(self).events@);
                        assert(fs.len() > 0);
                    }
                    return Err(SyncError::Broadcast(e));
                },
            }
            i += 1;
            proof {
                let iprev = i as int - 1;
                assert(self.events@.log == prelog.push(evp));
                assert(fs.take(i as int) =~= fs.take(iprev).push(fs[iprev]));
                assert(spec_disconnect_events(chanv, fs.take(i as int)) =~= spec_disconnect_events(
                    chanv,
                    fs.take(iprev),
                ).push(evp));
                assert((old(self).events@.log + spec_disconnect_events(chanv, fs.take(iprev))).push(
                    evp,
                ) =~= old(self).events@.log + spec_disconnect_events(chanv, fs.take(iprev)).push(
                    evp,
                ));
                assert(self.events@.log =~= old(self).events@.log + spec_disconnect_events(
                    chanv,
                    fs.take(i as int),
                ));
            }
        }
        proof {
            assert(fs.take(fs.len() as int) =~= fs);
        }
        let (k2, _f2) = DPNRedisKey::get_peers_kf(masternode_id, 0);
        match self.peers.del(k2) {
            Ok(()) => Ok(()),
            Err(e) => {
                // the sweep's read succeeded and nothing here flips the
                // store's availability, so the delete cannot fail
                proof {
                    assert(false);
                }
                Err(SyncError::Mutation(e))
            },
        }
    }

    /// Overwrites the price record of the user address, then broadcasts the
    /// new price on the global price channel.
    pub fn publish_peer_price(&mut self, price: UserBandwidthPrice) -> (r: Result<(), SyncError>)
        requires
            old(self).wf(),
        ensures
            final(self).wf(),
            final(self).peers == old(self).peers,
            final(self).proxy_accs == old(self).proxy_accs,
            final(self).tasks == old(self).tasks,
            final(self).queues == old(self).queues,
            match r {
                Ok(()) => {
                    &&& old(self).prices@.available
                    &&& old(self).events@.available
                    &&& final(self).prices@ == old(self).prices@.put(
                        spec_price_bucket(),
                        price.user_addr@,
                        price@,
                    )
                    &&& final(self).events@ == old(self).events@.sent(
                        spec_price_chan(),
                        ChangeEventV::Price(price@),
                    )
                },
                Err(SyncError::Mutation(e)) => {
                    &&& e == StoreError::StoreUnavailable
                    &&& !old(self).prices@.available
                    &&& final(self).prices@ == old(self).prices@
                    &&& final(self).events@ == old(self).events@
                },
                Err(SyncError::Broadcast(e)) => {
                    &&& e == StoreError::StoreUnavailable
                    &&& old(self).prices@.available
                    &&& !old(self).events@.available
                    &&& final(self).prices@ == old(self).prices@.put(
                        spec_price_bucket(),
                        price.user_addr@,
                        price@,
                    )
                    &&& final(self).events@ == old(self).events@
                },
            },
    {
        let (k, f) = DPNRedisKey::get_price_kf(price.user_addr.clone());
        let record = price.dup();
        match self.prices.hset(k, f, record) {
            Ok(()) => {},
            Err(e) => {
                return Err(SyncError::Mutation(e));
            },
        }
        match self.events.publish(DPNRedisKey::get_price_chan(), ChangeEvent::Price(price)) {
            Ok(()) => Ok(()),
            Err(e) => Err(SyncError::Broadcast(e)),
        }
    }

    /// Enumerates every price record, in bucket order.
    pub fn get_peers_price(&self) -> (r: Result<Vec<UserBandwidthPrice>, StoreError>)
        requires
            self.wf(),
        ensures
            match r {
                Ok(rs) => {
                    &&& self.prices@.available
                    &&& rs@.len() == self.prices@.live_fields(spec_price_bucket()).len()
                    &&& forall|i: int|
                        0 <= i < rs@.len() ==> (#[trigger] rs@[i])@ == self.prices@.live_fields(
                            spec_price_bucket(),
                        )[i].1
                },
                Err(e) => e == StoreError::StoreUnavailable && !self.prices@.available,
            },
    {
        let (k, _f) = DPNRedisKey::get_price_kf(String::new());
        let pairs = match self.prices.hgetall(k) {
            Ok(p) => p,
            Err(e) => {
                return Err(e);
            },
        };
        let mut rs: Vec<UserBandwidthPrice> = Vec::new();
        let mut i: usize = 0;
        while i < pairs.len()
            invariant
                i <= pairs@.len(),
                rs@.len() == i,
                forall|j: int| 0 <= j < i ==> (#[trigger] rs@[j])@ == pairs@[j].1@,
            decreases pairs@.len() - i,
        {
            rs.push(pairs[i].1.dup());
            i += 1;
        }
        Ok(rs)
    }

    /// Applies a proxy-account lifecycle event: mutates the account bucket
    /// as the variant calls for (`RefreshAll` touches nothing), then
    /// broadcasts the event on the global proxy-account channel.
    pub fn publish_proxy_acc(&mut self, proxy_acc_changed: ProxyAccChanged) -> (r: Result<
        (),
        SyncError,
    >)
        requires
            old(self).wf(),
        ensures
            final(self).wf(),
            final(self).peers == old(self).peers,
            final(self).prices == old(self).prices,
            final(self).tasks == old(self).tasks,
            final(self).queues == old(self).queues,
            match r {
                Ok(()) => {
                    &&& old(self).proxy_accs@.available || proxy_acc_changed@
                        is RefreshAll
                    &&& old(self).events@.available
                    &&& final(self).proxy_accs@ == spec_proxy_mutation(
                        old(self).proxy_accs@,
                        proxy_acc_changed@,
                    )
                    &&& final(self).events@ == old(self).events@.sent(
                        spec_proxy_acc_chan(),
                        ChangeEventV::ProxyAcc(proxy_acc_changed@),
                    )
                },
                Err(SyncError::Mutation(e)) => {
                    &&& e == StoreError::StoreUnavailable
                    &&& !old(self).proxy_accs@.available
                    &&& !(proxy_acc_changed@ is RefreshAll)
                    &&& final(self).proxy_accs@ == old(self).proxy_accs@
                    &&& final(self).events@ == old(self).events@
                },
                Err(SyncError::Broadcast(e)) => {
                    &&& e == StoreError::StoreUnavailable
                    &&& !old(self).events@.available
                    &&& old(self).proxy_accs@.available || proxy_acc_changed@
                        is RefreshAll
                    &&& final(self).proxy_accs@ == spec_proxy_mutation(
                        old(self).proxy_accs@,
                        proxy_acc_changed@,
                    )
                    &&& final(self).events@ == old(self).events@
                },
            },
    {
        match &proxy_acc_changed {
            ProxyAccChanged::Created(pad) => {
                let (k, f) = DPNRedisKey::get_proxy_acc_kf(pad.client_id.clone());
                let record = pad.dup();
                match self.proxy_accs.hset(k, f, record) {
                    Ok(()) => {},
                    Err(e) => {
                        return Err(SyncError::Mutation(e));
                    },
                }
            },
            ProxyAccChanged::Updated(pad) => {
                let (k, f) = DPNRedisKey::get_proxy_acc_kf(pad.client_id.clone());
                let record = pad.dup();
                match self.proxy_accs.hset(k, f, record) {
                    Ok(()) => {},
                    Err(e) => {
                        return Err(SyncError::Mutation(e));
                    },
                }
            },
            ProxyAccChanged::Deleted(id) => {
                let (k, f) = DPNRedisKey::get_proxy_acc_kf(id.clone());
                match self.proxy_accs.hdel(k, f) {
                    Ok(()) => {},
                    Err(e) => {
                        return Err(SyncError::Mutation(e));
                    },
                }
            },
            ProxyAccChanged::RefreshAll => {},
        }
        match self.events.publish(
            DPNRedisKey::get_proxy_acc_chan(),
            ChangeEvent::ProxyAcc(proxy_acc_changed),
        ) {
            Ok(()) => Ok(()),
            Err(e) => Err(SyncError::Broadcast(e)),
        }
    }

    /// Enumerates every proxy-account record, in bucket order.
    pub fn get_proxy_accs(&self) -> (r: Result<Vec<ProxyAccData>, StoreError>)
        requires
            self.wf(),
        ensures
            match r {
                Ok(rs) => {
                    &&& self.proxy_accs@.available
                    &&& rs@.len() == self.proxy_accs@.live_fields(spec_proxy_acc_bucket()).len()
                    &&& forall|i: int|
                        0 <= i < rs@.len() ==> (#[trigger] rs@[i])@ == self.proxy_accs@.live_fields(
                            spec_proxy_acc_bucket(),
                        )[i].1
                },
                Err(e) => e == StoreError::StoreUnavailable && !self.proxy_accs@.available,
            },
    {
        let (k, _f) = DPNRedisKey::get_proxy_acc_kf(String::new());
        let pairs = match self.proxy_accs.hgetall(k) {
            Ok(p) => p,
            Err(e) => {
                return Err(e);
            },
        };
        let mut rs: Vec<ProxyAccData> = Vec::new();
        let mut i: usize = 0;
        while i < pairs.len()
            invariant
                i <= pairs@.len(),
                rs@.len() == i,
                forall|j: int| 0 <= j < i ==> (#[trigger] rs@[j])@ == pairs@[j].1@,
            decreases pairs@.len() - i,
        {
            rs.push(pairs[i].1.dup());
            i += 1;
        }
        Ok(rs)
    }

    /// Deletes every proxy-account record, with no per-entry broadcast.  It
    /// must be called when the admin service starts; accounts are then
    /// reloaded from the database and re-published entry by entry.
    pub fn remove_all_proxy_accs(&mut self) -> (r: Result<(), StoreError>)
        requires
            old(self).wf(),
        ensures
            final(self).wf(),
            final(self).peers == old(self).peers,
            final(self).prices == old(self).prices,
            final(self).tasks == old(self).tasks,
            final(self).queues == old(self).queues,
            final(self).events == old(self).events,
            match r {
                Ok(()) => old(self).proxy_accs@.available
                    && final(self).proxy_accs@ == old(self).proxy_accs@.del(
                    spec_proxy_acc_bucket(),
                ),
                Err(e) => e == StoreError::StoreUnavailable && !old(self).proxy_accs@.available
                    && final(self).proxy_accs@ == old(self).proxy_accs@,
            },
    {
        let (k, _f) = DPNRedisKey::get_proxy_acc_kf(String::new());
        self.proxy_accs.del(k)
    }

    /// Deletes every withdrawal-reward milestone, with no per-entry
    /// broadcast.  It must be called when the admin service starts; the
    /// milestones are then reloaded from the database.
    pub fn remove_all_withdrawal_reward(&mut self) -> (r: Result<(), StoreError>)
        requires
            old(self).wf(),
        ensures
            final(self).wf(),
            final(self).peers == old(self).peers,
            final(self).prices == old(self).prices,
            final(self).proxy_accs == old(self).proxy_accs,
            final(self).queues == old(self).queues,
            final(self).events == old(self).events,
            match r {
                Ok(()) => old(self).tasks@.available && final(self).tasks@ == old(self).tasks@.del(
                    spec_withdrawal_reward_bucket(),
                ),
                Err(e) => e == StoreError::StoreUnavailable && !old(self).tasks@.available
                    && final(self).tasks@ == old(self).tasks@,
            },
    {
        let (k, _f) = DPNRedisKey::get_withdrawal_reward_kf(String::new());
        self.tasks.del(k)
    }

    /// Overwrites the first-time-provider milestone of the user address, then broadcasts
    /// the milestone on its channel.
    pub fn publish_first_time_provider(&mut self, provider: UserTask) -> (r: Result<(), SyncError>)
        requires
            old(self).wf(),
        ensures
            final(self).wf(),
            final(self).peers == old(self).peers,
            final(self).prices == old(self).prices,
            final(self).proxy_accs == old(self).proxy_accs,
            final(self).queues == old(self).queues,
            match r {
                Ok(()) => {
                    &&& old(self).tasks@.available
                    &&& old(self).events@.available
                    &&& final(self).tasks@ == old(self).tasks@.put(
                        spec_first_time_provider_bucket(),
                        provider.user_addr@,
                        provider@,
                    )
                    &&& final(self).events@ == old(self).events@.sent(
                        spec_first_time_provider_chan(),
                        ChangeEventV::Task(provider@),
                    )
                },
                Err(SyncError::Mutation(e)) => {
                    &&& e == StoreError::StoreUnavailable
                    &&& !old(self).tasks@.available
                    &&& final(self).tasks@ == old(self).tasks@
                    &&& final(self).events@ == old(self).events@
                },
                Err(SyncError::Broadcast(e)) => {
                    &&& e == StoreError::StoreUnavailable
                    &&& old(self).tasks@.available
                    &&& !old(self).events@.available
                    &&& final(self).tasks@ == old(self).tasks@.put(
                        spec_first_time_provider_bucket(),
                        provider.user_addr@,
                        provider@,
                    )
                    &&& final(self).events@ == old(self).events@
                },
            },
    {
        let (k, f) = DPNRedisKey::get_first_time_provider_kf(provider.user_addr.clone());
        let record = provider.dup();
        match self.tasks.hset(k, f, record) {
            Ok(()) => {},
            Err(e) => {
                return Err(SyncError::Mutation(e));
            },
        }
        match self.events.publish(DPNRedisKey::get_first_time_provider_chan(), ChangeEvent::Task(provider)) {
            Ok(()) => Ok(()),
            Err(e) => Err(SyncError::Broadcast(e)),
        }
    }

    /// Overwrites the withdrawal-reward milestone of the user address, then broadcasts
    /// the milestone on its channel.
    pub fn publish_withdrawal_reward(&mut self, provider: UserTask) -> (r: Result<(), SyncError>)
        requires
            old(self).wf(),
        ensures
            final(self).wf(),
            final(self).peers == old(self).peers,
            final(self).prices == old(self).prices,
            final(self).proxy_accs == old(self).proxy_accs,
            final(self).queues == old(self).queues,
            match r {
                Ok(()) => {
                    &&& old(self).tasks@.available
                    &&& old(self).events@.available
                    &&& final(self).tasks@ == old(self).tasks@.put(
                        spec_withdrawal_reward_bucket(),
                        provider.user_addr@,
                        provider@,
                    )
                    &&& final(self).events@ == old(self).events@.sent(
                        spec_withdrawal_reward_chan(),
                        ChangeEventV::Task(provider@),
                    )
                },
                Err(SyncError::Mutation(e)) => {
                    &&& e == StoreError::StoreUnavailable
                    &&& !old(self).tasks@.available
                    &&& final(self).tasks@ == old(self).tasks@
                    &&& final(self).events@ == old(self).events@
                },
                Err(SyncError::Broadcast(e)) => {
                    &&& e == StoreError::StoreUnavailable
                    &&& old(self).tasks@.available
                    &&& !old(self).events@.available
                    &&& final(self).tasks@ == old(self).tasks@.put(
                        spec_withdrawal_reward_bucket(),
                        provider.user_addr@,
                        provider@,
                    )
                    &&& final(self).events@ == old(self).events@
                },
            },
    {
        let (k, f) = DPNRedisKey::get_withdrawal_reward_kf(provider.user_addr.clone());
        let record = provider.dup();
        match self.tasks.hset(k, f, record) {
            Ok(()) => {},
            Err(e) => {
                return Err(SyncError::Mutation(e));
            },
        }
        match self.events.publish(DPNRedisKey::get_withdrawal_reward_chan(), ChangeEvent::Task(provider)) {
            Ok(()) => Ok(()),
            Err(e) => Err(SyncError::Broadcast(e)),
        }
    }

    /// Overwrites the eight-hour-completion milestone of the user address, then broadcasts
    /// the milestone on its channel.
    pub fn publish_completed_8_hours_ot(&mut self, provider: UserTask) -> (r: Result<(), SyncError>)
        requires
            old(self).wf(),
        ensures
            final(self).wf(),
            final(self).peers == old(self).peers,
            final(self).prices == old(self).prices,
            final(self).proxy_accs == old(self).proxy_accs,
            final(self).queues == old(self).queues,
            match r {
                Ok(()) => {
                    &&& old(self).tasks@.available
                    &&& old(self).events@.available
                    &&& final(self).tasks@ == old(self).tasks@.put(
                        spec_completed_8_hours_ot_bucket(),
                        provider.user_addr@,
                        provider@,
                    )
                    &&& final(self).events@ == old(self).events@.sent(
                        spec_completed_8_hours_ot_chan(),
                        ChangeEventV::Task(provider@),
                    )
                },
                Err(SyncError::Mutation(e)) => {
                    &&& e == StoreError::StoreUnavailable
                    &&& !old(self).tasks@.available
                    &&& final(self).tasks@ == old(self).tasks@
                    &&& final(self).events@ == old(self).events@
                },
                Err(SyncError::Broadcast(e)) => {
                    &&& e == StoreError::StoreUnavailable
                    &&& old(self).tasks@.available
                    &&& !old(self).events@.available
                    &&& final(self).tasks@ == old(self).tasks@.put(
                        spec_completed_8_hours_ot_bucket(),
                        provider.user_addr@,
                        provider@,
                    )
                    &&& final(self).events@ == old(self).events@
                },
            },
    {
        let (k, f) = DPNRedisKey::get_completed_8_hours_ot_kf(provider.user_addr.clone());
        let record = provider.dup();
        match self.tasks.hset(k, f, record) {
            Ok(()) => {},
            Err(e) => {
                return Err(SyncError::Mutation(e));
            },
        }
        match self.events.publish(DPNRedisKey::get_completed_8_hours_ot_chan(), ChangeEvent::Task(provider)) {
            Ok(()) => Ok(()),
            Err(e) => Err(SyncError::Broadcast(e)),
        }
    }

    /// Overwrites the per-day-completion milestone of the user address, then broadcasts
    /// the milestone on its channel.
    pub fn publish_completed_time_per_day(&mut self, provider: UserTask) -> (r: Result<(), SyncError>)
        requires
            old(self).wf(),
        ensures
            final(self).wf(),
            final(self).peers == old(self).peers,
            final(self).prices == old(self).prices,
            final(self).proxy_accs == old(self).proxy_accs,
            final(self).queues == old(self).queues,
            match r {
                Ok(()) => {
                    &&& old(self).tasks@.available
                    &&& old(self).events@.available
                    &&& final(self).tasks@ == old(self).tasks@.put(
                        spec_completed_time_per_day_bucket(),
                        provider.user_addr@,
                        provider@,
                    )
                    &&& final(self).events@ == old(self).events@.sent(
                        spec_completed_time_per_day_chan(),
                        ChangeEventV::Task(provider@),
                    )
                },
                Err(SyncError::Mutation(e)) => {
                    &&& e == StoreError::StoreUnavailable
                    &&& !old(self).tasks@.available
                    &&& final(self).tasks@ == old(self).tasks@
                    &&& final(self).events@ == old(self).events@
                },
                Err(SyncError::Broadcast(e)) => {
                    &&& e == StoreError::StoreUnavailable
                    &&& old(self).tasks@.available
                    &&& !old(self).events@.available
                    &&& final(self).tasks@ == old(self).tasks@.put(
                        spec_completed_time_per_day_bucket(),
                        provider.user_addr@,
                        provider@,
                    )
                    &&& final(self).events@ == old(self).events@
                },
            },
    {
        let (k, f) = DPNRedisKey::get_completed_time_per_day_kf(provider.user_addr.clone());
        let record = provider.dup();
        match self.tasks.hset(k, f, record) {
            Ok(()) => {},
            Err(e) => {
                return Err(SyncError::Mutation(e));
            },
        }
        match self.events.publish(DPNRedisKey::get_completed_time_per_day_chan(), ChangeEvent::Task(provider)) {
            Ok(()) => Ok(()),
            Err(e) => Err(SyncError::Broadcast(e)),
        }
    }

    /// Broadcasts the one-time-invite milestone.  This milestone is
    /// event-only: no record is written.
    pub fn publish_invite_friend_one_time(&mut self, provider: UserTask) -> (r: Result<
        (),
        SyncError,
    >)
        requires
            old(self).wf(),
        ensures
            final(self).wf(),
            final(self).peers == old(self).peers,
            final(self).prices == old(self).prices,
            final(self).proxy_accs == old(self).proxy_accs,
            final(self).tasks == old(self).tasks,
            final(self).queues == old(self).queues,
            match r {
                Ok(()) => old(self).events@.available && final(self).events@ == old(
                    self,
                ).events@.sent(spec_invite_friend_one_time_chan(), ChangeEventV::Task(provider@)),
                Err(SyncError::Broadcast(e)) => e == StoreError::StoreUnavailable && !old(
                    self,
                ).events@.available && final(self).events@ == old(self).events@,
                Err(SyncError::Mutation(_)) => false,
            },
    {
        match self.events.publish(
            DPNRedisKey::get_invite_friend_one_time_chan(),
            ChangeEvent::Task(provider),
        ) {
            Ok(()) => Ok(()),
            Err(e) => Err(SyncError::Broadcast(e)),
        }
    }
}

} // verus!
