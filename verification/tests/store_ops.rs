use dpn_state_sync::errors::StoreError;
use dpn_state_sync::store::HashStore;
use dpn_state_sync::types::bandwidth::UserBandwidthPrice;
use dpn_state_sync::types::connection::ProxyAccData;
use dpn_state_sync::types::task::UserTask;
use dpn_state_sync::events::PeerChangedInfo;

fn task(addr: &str) -> UserTask {
    UserTask { user_addr: addr.to_string() }
}

#[test]
fn put_get_round_trip_task() {
    let mut s: HashStore<UserTask> = HashStore::new();
    s.hset("bucket".to_string(), "field".to_string(), task("0xabc"))
        .unwrap();
    let got = s.hget("bucket".to_string(), "field".to_string()).unwrap();
    assert_eq!(got, task("0xabc"));
}

#[test]
fn put_get_round_trip_price() {
    let mut s: HashStore<UserBandwidthPrice> = HashStore::new();
    let price = UserBandwidthPrice {
        user_addr: "0xabc".to_string(),
        rate_per_kb: 7,
        rate_per_second: 11,
    };
    s.hset("peer_price".to_string(), "0xabc".to_string(), price.clone())
        .unwrap();
    let got = s.hget("peer_price".to_string(), "0xabc".to_string()).unwrap();
    assert_eq!(got, price);
}

#[test]
fn put_get_round_trip_peer() {
    let mut s: HashStore<PeerChangedInfo> = HashStore::new();
    let info = PeerChangedInfo {
        uuid: "u-1".to_string(),
        login_session_id: "ls-1".to_string(),
        ip_u32: 16909060,
    };
    s.hset("peers_ms#n1".to_string(), "16909060".to_string(), info.clone())
        .unwrap();
    let got = s
        .hget("peers_ms#n1".to_string(), "16909060".to_string())
        .unwrap();
    assert_eq!(got, info);
}

#[test]
fn put_get_round_trip_proxy_acc() {
    let mut s: HashStore<ProxyAccData> = HashStore::new();
    let pad = ProxyAccData {
        client_id: "acc-1".to_string(),
        username: "user".to_string(),
        password: "pass".to_string(),
        ip_rotation_period: 300,
        whitelist_ip_list: vec!["10.0.0.1".to_string(), "10.0.0.2".to_string()],
    };
    s.hset("proxy_acc".to_string(), "acc-1".to_string(), pad.clone())
        .unwrap();
    let got = s.hget("proxy_acc".to_string(), "acc-1".to_string()).unwrap();
    assert_eq!(got, pad);
}

#[test]
fn get_absent_field_not_found() {
    let s: HashStore<UserTask> = HashStore::new();
    let got = s.hget("bucket".to_string(), "nope".to_string());
    assert_eq!(got, Err(StoreError::NotFound));
}

#[test]
fn delete_absent_field_is_ok() {
    let mut s: HashStore<UserTask> = HashStore::new();
    assert_eq!(s.hdel("bucket".to_string(), "nope".to_string()), Ok(()));
    s.hset("bucket".to_string(), "f".to_string(), task("a")).unwrap();
    assert_eq!(s.hdel("bucket".to_string(), "f".to_string()), Ok(()));
    assert_eq!(s.hdel("bucket".to_string(), "f".to_string()), Ok(()));
    assert_eq!(
        s.hget("bucket".to_string(), "f".to_string()),
        Err(StoreError::NotFound)
    );
}

#[test]
fn getall_returns_each_last_written_value() {
    let mut s: HashStore<UserTask> = HashStore::new();
    s.hset("b".to_string(), "f1".to_string(), task("a1")).unwrap();
    s.hset("b".to_string(), "f2".to_string(), task("a2")).unwrap();
    s.hset("b".to_string(), "f3".to_string(), task("a3")).unwrap();
    s.hset("b".to_string(), "f2".to_string(), task("a2-new")).unwrap();
    let all = s.hgetall("b".to_string()).unwrap();
    assert_eq!(all.len(), 3);
    let mut seen = vec![];
    for (f, v) in all {
        seen.push((f.clone(), v.user_addr.clone()));
    }
    assert!(seen.contains(&("f1".to_string(), "a1".to_string())));
    assert!(seen.contains(&("f2".to_string(), "a2-new".to_string())));
    assert!(seen.contains(&("f3".to_string(), "a3".to_string())));
}

#[test]
fn getall_of_absent_bucket_is_empty() {
    let s: HashStore<UserTask> = HashStore::new();
    assert_eq!(s.hgetall("nothing".to_string()).unwrap().len(), 0);
}

#[test]
fn del_removes_whole_bucket() {
    let mut s: HashStore<UserTask> = HashStore::new();
    s.hset("b".to_string(), "f1".to_string(), task("a1")).unwrap();
    s.hset("b".to_string(), "f2".to_string(), task("a2")).unwrap();
    s.hset("other".to_string(), "f1".to_string(), task("x")).unwrap();
    s.del("b".to_string()).unwrap();
    assert_eq!(s.hgetall("b".to_string()).unwrap().len(), 0);
    assert_eq!(s.hgetall("other".to_string()).unwrap().len(), 1);
    assert_eq!(s.del("b".to_string()), Ok(()));
}

#[test]
fn put_with_expiry_reads_until_ttl_elapses() {
    let mut s: HashStore<UserTask> = HashStore::new();
    s.hset_with_ttl("b".to_string(), "f".to_string(), task("a"), 5)
        .unwrap();
    assert_eq!(
        s.hget("b".to_string(), "f".to_string()),
        Ok(task("a"))
    );
    s.advance(4);
    assert_eq!(
        s.hget("b".to_string(), "f".to_string()),
        Ok(task("a"))
    );
    s.advance(1);
    assert_eq!(
        s.hget("b".to_string(), "f".to_string()),
        Err(StoreError::NotFound)
    );
    assert_eq!(s.hgetall("b".to_string()).unwrap().len(), 0);
}

#[test]
fn write_to_expired_bucket_starts_fresh() {
    let mut s: HashStore<UserTask> = HashStore::new();
    s.hset_with_ttl("b".to_string(), "old".to_string(), task("gone"), 1)
        .unwrap();
    s.advance(2);
    s.hset("b".to_string(), "new".to_string(), task("kept")).unwrap();
    let all = s.hgetall("b".to_string()).unwrap();
    assert_eq!(all.len(), 1);
    assert_eq!(all[0].0, "new".to_string());
    assert_eq!(all[0].1, task("kept"));
}

#[test]
fn unavailable_store_fails_every_operation() {
    let mut s: HashStore<UserTask> = HashStore::new();
    s.set_available(false);
    assert_eq!(
        s.hset("b".to_string(), "f".to_string(), task("a")),
        Err(StoreError::StoreUnavailable)
    );
    assert_eq!(
        s.hget("b".to_string(), "f".to_string()),
        Err(StoreError::StoreUnavailable)
    );
    assert_eq!(
        s.hgetall("b".to_string()),
        Err(StoreError::StoreUnavailable)
    );
    assert_eq!(
        s.hdel("b".to_string(), "f".to_string()),
        Err(StoreError::StoreUnavailable)
    );
    assert_eq!(s.del("b".to_string()), Err(StoreError::StoreUnavailable));
    s.set_available(true);
    assert_eq!(s.hset("b".to_string(), "f".to_string(), task("a")), Ok(()));
}
