use dpn_state_sync::types::bandwidth::EphemeralSession;
use dpn_state_sync::types::bandwidth::Session;
use dpn_state_sync::types::bandwidth::SessionStatus;
use dpn_state_sync::types::stream_payload::ProxyPayload;
use dpn_state_sync::types::stream_payload::StreamOrigin;

#[test]
fn stream_tx_id_joins_topic_and_stream_number() {
    let p = ProxyPayload {
        origin: StreamOrigin {
            origin_topic: "c_0x9797".to_string(),
            stream_id: 42,
            duration: 60,
        },
        payload: vec![1, 2, 3],
    };
    assert_eq!(p.stream_tx_id(), "c_0x9797:42".to_string());
}

#[test]
fn print_payload_renders_both_directions() {
    let p = ProxyPayload {
        origin: StreamOrigin {
            origin_topic: "abcdefghijKLMNOP".to_string(),
            stream_id: 7,
            duration: 60,
        },
        payload: vec![0; 5],
    };
    assert_eq!(
        p.print_payload(true),
        ">>>|out|>>> origin_topic=abcdefghij stream_id=7 len=5".to_string()
    );
    assert_eq!(
        p.print_payload(false),
        "<<<|inn|<<< origin_topic=abcdefghij stream_id=7 len=5".to_string()
    );
}

#[test]
fn print_payload_quotes_short_topics_whole() {
    let p = ProxyPayload {
        origin: StreamOrigin {
            origin_topic: "abc".to_string(),
            stream_id: 3,
            duration: 60,
        },
        payload: vec![],
    };
    assert_eq!(
        p.print_payload(true),
        ">>>|out|>>> origin_topic=abc stream_id=3 len=0".to_string()
    );
}

#[test]
fn ephemeral_session_stores_seconds_and_zero_usage() {
    let s = EphemeralSession::new(
        "client-1".to_string(),
        "0xclient".to_string(),
        "0xpeer".to_string(),
        3,
        5,
        "ls-9".to_string(),
        1234,
        1_700_000_123_456_789,
        "deadbeef".to_string(),
    );
    assert_eq!(s.hash, "deadbeef".to_string());
    assert_eq!(s.client_identifier, "client-1".to_string());
    assert_eq!(s.client_addr, "0xclient".to_string());
    assert_eq!(s.peer_addr, "0xpeer".to_string());
    assert_eq!(s.rate_per_kb, 3);
    assert_eq!(s.rate_per_second, 5);
    assert_eq!(s.bandwidth_usage, 0);
    assert_eq!(s.handshaked_at, 1_700_000_123);
    assert_eq!(s.end_at, 1_700_000_123);
    assert_eq!(s.login_session_id, "ls-9".to_string());
    assert_eq!(s.peer_country_geoname_id, 1234);
}

#[test]
fn session_constructor_keeps_every_part() {
    let s = Session::new(
        "hash-1".to_string(),
        "client-1".to_string(),
        "0xprovider".to_string(),
        "0xclient".to_string(),
        10,
        20,
        Some(100),
        Some(200),
        Some(100),
        Some(4096),
        1000,
        2000,
        3000,
        SessionStatus::Finished,
        None,
        None,
        Some(1234),
    );
    assert_eq!(s.session_hash, "hash-1".to_string());
    assert_eq!(s.rate_per_second, 10);
    assert_eq!(s.rate_per_kb, 20);
    assert_eq!(s.total_fee, 3000);
    assert_eq!(s.status, SessionStatus::Finished);
    assert_eq!(s.reason, None);
    assert_eq!(s.peer_country_geoname_id, Some(1234));
}
