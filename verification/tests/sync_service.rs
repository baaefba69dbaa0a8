use dpn_state_sync::errors::StoreError;
use dpn_state_sync::errors::SyncError;
use dpn_state_sync::events::ChangeEvent;
use dpn_state_sync::events::PeerChanged;
use dpn_state_sync::events::PeerChangedInfo;
use dpn_state_sync::events::ProxyAccChanged;
use dpn_state_sync::keys::DPNRedisKey;
use dpn_state_sync::sync::StateSync;
use dpn_state_sync::types::bandwidth::UserBandwidthPrice;
use dpn_state_sync::types::connection::ProxyAccData;
use dpn_state_sync::types::task::UserTask;

fn peer(uuid: &str, ls: &str, ip: u32) -> PeerChangedInfo {
    PeerChangedInfo {
        uuid: uuid.to_string(),
        login_session_id: ls.to_string(),
        ip_u32: ip,
    }
}

fn pad(id: &str) -> ProxyAccData {
    ProxyAccData {
        client_id: id.to_string(),
        username: "user".to_string(),
        password: "pass".to_string(),
        ip_rotation_period: 600,
        whitelist_ip_list: vec!["192.0.2.1".to_string()],
    }
}

#[test]
fn connect_writes_record_and_broadcasts() {
    let mut sync = StateSync::new();
    let info = peer("u1", "ls1", 1);
    sync.publish_peer("n1".to_string(), PeerChanged::Connected(info.clone()))
        .unwrap();
    let peers = sync.get_peers("n1".to_string()).unwrap();
    assert_eq!(peers, vec![info.clone()]);
    assert_eq!(sync.events.sent_count(), 1);
    let (chan, ev) = sync.events.sent_at(0);
    assert_eq!(chan, "peers_updated_ms#n1".to_string());
    assert_eq!(ev, ChangeEvent::Peer(PeerChanged::Connected(info)));
}

#[test]
fn disconnect_deletes_record_and_broadcasts() {
    let mut sync = StateSync::new();
    let info = peer("u1", "ls1", 1);
    sync.publish_peer("n1".to_string(), PeerChanged::Connected(info.clone()))
        .unwrap();
    sync.publish_peer("n1".to_string(), PeerChanged::Disconnected(info.clone()))
        .unwrap();
    assert_eq!(sync.get_peers("n1".to_string()).unwrap().len(), 0);
    assert_eq!(sync.events.sent_count(), 2);
    let (_, ev) = sync.events.sent_at(1);
    assert_eq!(ev, ChangeEvent::Peer(PeerChanged::Disconnected(info)));
}

#[test]
fn nodes_do_not_share_peer_buckets() {
    let mut sync = StateSync::new();
    sync.publish_peer("n1".to_string(), PeerChanged::Connected(peer("u1", "l1", 1)))
        .unwrap();
    sync.publish_peer("n2".to_string(), PeerChanged::Connected(peer("u2", "l2", 1)))
        .unwrap();
    assert_eq!(sync.get_peers("n1".to_string()).unwrap().len(), 1);
    assert_eq!(sync.get_peers("n2".to_string()).unwrap().len(), 1);
}

#[test]
fn remove_all_peers_broadcasts_each_disconnect_then_empties() {
    let mut sync = StateSync::new();
    let a = peer("ua", "la", 1);
    let b = peer("ub", "lb", 2);
    sync.publish_peer("n1".to_string(), PeerChanged::Connected(a.clone()))
        .unwrap();
    sync.publish_peer("n1".to_string(), PeerChanged::Connected(b.clone()))
        .unwrap();
    assert_eq!(sync.events.sent_count(), 2);
    sync.remove_all_peers("n1".to_string()).unwrap();
    assert_eq!(sync.events.sent_count(), 4);
    let mut swept = vec![];
    for i in 2..4 {
        let (chan, ev) = sync.events.sent_at(i);
        assert_eq!(chan, "peers_updated_ms#n1".to_string());
        match ev {
            ChangeEvent::Peer(PeerChanged::Disconnected(info)) => swept.push(info),
            other => panic!("expected a disconnect broadcast, got {:?}", other),
        }
    }
    assert!(swept.contains(&a));
    assert!(swept.contains(&b));
    assert_eq!(sync.get_peers("n1".to_string()).unwrap().len(), 0);
}

#[test]
fn price_update_overwrites_and_broadcasts() {
    let mut sync = StateSync::new();
    let p1 = UserBandwidthPrice {
        user_addr: "0xa".to_string(),
        rate_per_kb: 1,
        rate_per_second: 2,
    };
    let p2 = UserBandwidthPrice {
        user_addr: "0xa".to_string(),
        rate_per_kb: 3,
        rate_per_second: 4,
    };
    sync.publish_peer_price(p1).unwrap();
    sync.publish_peer_price(p2.clone()).unwrap();
    assert_eq!(sync.get_peers_price().unwrap(), vec![p2.clone()]);
    assert_eq!(sync.events.sent_count(), 2);
    let (chan, ev) = sync.events.sent_at(1);
    assert_eq!(chan, "price_updated".to_string());
    assert_eq!(ev, ChangeEvent::Price(p2));
}

#[test]
fn proxy_acc_lifecycle() {
    let mut sync = StateSync::new();
    sync.publish_proxy_acc(ProxyAccChanged::Created(pad("acc1"))).unwrap();
    sync.publish_proxy_acc(ProxyAccChanged::Created(pad("acc2"))).unwrap();
    assert_eq!(sync.get_proxy_accs().unwrap().len(), 2);
    let mut updated = pad("acc1");
    updated.password = "rotated".to_string();
    sync.publish_proxy_acc(ProxyAccChanged::Updated(updated.clone())).unwrap();
    let accs = sync.get_proxy_accs().unwrap();
    assert!(accs.contains(&updated));
    sync.publish_proxy_acc(ProxyAccChanged::Deleted("acc1".to_string())).unwrap();
    assert_eq!(sync.get_proxy_accs().unwrap(), vec![pad("acc2")]);
    assert_eq!(sync.events.sent_count(), 4);
    let (chan, _) = sync.events.sent_at(3);
    assert_eq!(chan, "proxy_acc_updated".to_string());
}

#[test]
fn refresh_all_broadcasts_but_mutates_nothing() {
    let mut sync = StateSync::new();
    sync.publish_proxy_acc(ProxyAccChanged::Created(pad("acc1"))).unwrap();
    let before = sync.get_proxy_accs().unwrap();
    sync.publish_proxy_acc(ProxyAccChanged::RefreshAll).unwrap();
    assert_eq!(sync.get_proxy_accs().unwrap(), before);
    assert_eq!(sync.events.sent_count(), 2);
    let (chan, ev) = sync.events.sent_at(1);
    assert_eq!(chan, "proxy_acc_updated".to_string());
    assert_eq!(ev, ChangeEvent::ProxyAcc(ProxyAccChanged::RefreshAll));
}

#[test]
fn refresh_all_succeeds_with_record_store_down() {
    let mut sync = StateSync::new();
    sync.proxy_accs.set_available(false);
    assert_eq!(sync.publish_proxy_acc(ProxyAccChanged::RefreshAll), Ok(()));
    assert_eq!(sync.events.sent_count(), 1);
}

#[test]
fn broadcast_failure_leaves_mutation_readable() {
    let mut sync = StateSync::new();
    let price = UserBandwidthPrice {
        user_addr: "0xa".to_string(),
        rate_per_kb: 9,
        rate_per_second: 10,
    };
    sync.events.set_available(false);
    let r = sync.publish_peer_price(price.clone());
    assert_eq!(r, Err(SyncError::Broadcast(StoreError::StoreUnavailable)));
    assert_eq!(sync.get_peers_price().unwrap(), vec![price]);
    assert_eq!(sync.events.sent_count(), 0);
}

#[test]
fn mutation_failure_reports_mutation_phase_and_skips_broadcast() {
    let mut sync = StateSync::new();
    sync.prices.set_available(false);
    let price = UserBandwidthPrice {
        user_addr: "0xa".to_string(),
        rate_per_kb: 9,
        rate_per_second: 10,
    };
    let r = sync.publish_peer_price(price);
    assert_eq!(r, Err(SyncError::Mutation(StoreError::StoreUnavailable)));
    assert_eq!(sync.events.sent_count(), 0);
}

#[test]
fn broadcast_failure_aborts_peer_sweep() {
    let mut sync = StateSync::new();
    sync.publish_peer("n1".to_string(), PeerChanged::Connected(peer("u1", "l1", 1)))
        .unwrap();
    sync.events.set_available(false);
    let r = sync.remove_all_peers("n1".to_string());
    assert_eq!(r, Err(SyncError::Broadcast(StoreError::StoreUnavailable)));
    assert_eq!(sync.get_peers("n1".to_string()).unwrap().len(), 1);
}

#[test]
fn milestone_publishes_write_record_and_broadcast() {
    let mut sync = StateSync::new();
    let t = UserTask { user_addr: "0xa".to_string() };
    sync.publish_first_time_provider(t.clone()).unwrap();
    sync.publish_withdrawal_reward(t.clone()).unwrap();
    sync.publish_completed_8_hours_ot(t.clone()).unwrap();
    sync.publish_completed_time_per_day(t.clone()).unwrap();
    assert_eq!(sync.events.sent_count(), 4);
    let (k, _f) = DPNRedisKey::get_first_time_provider_kf("0xa".to_string());
    assert_eq!(sync.tasks.hgetall(k).unwrap().len(), 1);
    let (k, _f) = DPNRedisKey::get_withdrawal_reward_kf("0xa".to_string());
    assert_eq!(sync.tasks.hgetall(k).unwrap().len(), 1);
    let (k, _f) = DPNRedisKey::get_completed_8_hours_ot_kf("0xa".to_string());
    assert_eq!(sync.tasks.hgetall(k).unwrap().len(), 1);
    let (k, _f) = DPNRedisKey::get_completed_time_per_day_kf("0xa".to_string());
    assert_eq!(sync.tasks.hgetall(k).unwrap().len(), 1);
    let (chan, ev) = sync.events.sent_at(0);
    assert_eq!(chan, "first_time_provider_updated".to_string());
    assert_eq!(ev, ChangeEvent::Task(t));
}

#[test]
fn completed_time_per_day_checks_mutation_error_first() {
    let mut sync = StateSync::new();
    sync.tasks.set_available(false);
    let r = sync.publish_completed_time_per_day(UserTask { user_addr: "0xa".to_string() });
    assert_eq!(r, Err(SyncError::Mutation(StoreError::StoreUnavailable)));
    assert_eq!(sync.events.sent_count(), 0);
}

#[test]
fn invite_friend_one_time_is_event_only() {
    let mut sync = StateSync::new();
    let t = UserTask { user_addr: "0xa".to_string() };
    sync.publish_invite_friend_one_time(t.clone()).unwrap();
    assert_eq!(sync.events.sent_count(), 1);
    let (chan, ev) = sync.events.sent_at(0);
    assert_eq!(chan, "invite_friend_one_time_updated".to_string());
    assert_eq!(ev, ChangeEvent::Task(t));
    let (k, _f) = DPNRedisKey::get_invite_friend_one_time_kf("0xa".to_string());
    assert_eq!(sync.tasks.hgetall(k).unwrap().len(), 0);
}

#[test]
fn remove_all_proxy_accs_and_withdrawal_rewards() {
    let mut sync = StateSync::new();
    sync.publish_proxy_acc(ProxyAccChanged::Created(pad("acc1"))).unwrap();
    sync.publish_withdrawal_reward(UserTask { user_addr: "0xa".to_string() })
        .unwrap();
    let events_before = sync.events.sent_count();
    sync.remove_all_proxy_accs().unwrap();
    sync.remove_all_withdrawal_reward().unwrap();
    assert_eq!(sync.get_proxy_accs().unwrap().len(), 0);
    let (k, _f) = DPNRedisKey::get_withdrawal_reward_kf("0xa".to_string());
    assert_eq!(sync.tasks.hgetall(k).unwrap().len(), 0);
    assert_eq!(sync.events.sent_count(), events_before);
}
