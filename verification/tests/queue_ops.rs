use dpn_state_sync::errors::StoreError;
use dpn_state_sync::queue::ZStore;

#[test]
fn enqueue_twice_is_an_upsert() {
    let mut z = ZStore::new();
    z.zadd("q".to_string(), 10, 7).unwrap();
    z.zadd("q".to_string(), 42, 7).unwrap();
    let all = z.zgetall("q".to_string()).unwrap();
    assert_eq!(all, vec![(7, 42)]);
}

#[test]
fn list_ordered_sorts_ascending_by_score() {
    let mut z = ZStore::new();
    z.zadd("q".to_string(), 50, 1).unwrap();
    z.zadd("q".to_string(), 10, 2).unwrap();
    z.zadd("q".to_string(), 30, 3).unwrap();
    let all = z.zgetall("q".to_string()).unwrap();
    assert_eq!(all, vec![(2, 10), (3, 30), (1, 50)]);
}

#[test]
fn remove_is_idempotent() {
    let mut z = ZStore::new();
    z.zadd("q".to_string(), 10, 1).unwrap();
    assert_eq!(z.zrem("q".to_string(), 1), Ok(()));
    assert_eq!(z.zrem("q".to_string(), 1), Ok(()));
    assert_eq!(z.zrem("other".to_string(), 9), Ok(()));
    assert_eq!(z.zgetall("q".to_string()).unwrap().len(), 0);
}

#[test]
fn rescore_all_levels_every_member() {
    let mut z = ZStore::new();
    z.zadd("q".to_string(), 50, 1).unwrap();
    z.zadd("q".to_string(), 10, 2).unwrap();
    z.zadd("q".to_string(), 30, 3).unwrap();
    z.zsetall("q".to_string(), 5).unwrap();
    let all = z.zgetall("q".to_string()).unwrap();
    assert_eq!(all.len(), 3);
    for (_, score) in &all {
        assert_eq!(*score, 5);
    }
    let members: Vec<u32> = all.iter().map(|e| e.0).collect();
    assert!(members.contains(&1));
    assert!(members.contains(&2));
    assert!(members.contains(&3));
}

#[test]
fn queues_are_independent() {
    let mut z = ZStore::new();
    z.zadd("peer_queue_ms#a_".to_string(), 1, 100).unwrap();
    z.zadd("peer_queue_ms#b_".to_string(), 2, 200).unwrap();
    assert_eq!(
        z.zgetall("peer_queue_ms#a_".to_string()).unwrap(),
        vec![(100, 1)]
    );
    assert_eq!(
        z.zgetall("peer_queue_ms#b_".to_string()).unwrap(),
        vec![(200, 2)]
    );
}

#[test]
fn unavailable_queue_store_fails() {
    let mut z = ZStore::new();
    z.set_available(false);
    assert_eq!(
        z.zadd("q".to_string(), 1, 1),
        Err(StoreError::StoreUnavailable)
    );
    assert_eq!(z.zrem("q".to_string(), 1), Err(StoreError::StoreUnavailable));
    assert_eq!(
        z.zsetall("q".to_string(), 0),
        Err(StoreError::StoreUnavailable)
    );
    assert_eq!(
        z.zgetall("q".to_string()),
        Err(StoreError::StoreUnavailable)
    );
}
