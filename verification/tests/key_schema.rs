use dpn_state_sync::keys::DPNRedisKey;

#[test]
fn geo_key_and_field() {
    let (k, f) = DPNRedisKey::get_geo_kf("n1".to_string(), "ls42".to_string());
    assert_eq!(k, "peer_geo".to_string());
    assert_eq!(f, "2_n1_ls42".to_string());
}

#[test]
fn geo_fields_of_distinct_pairs_differ() {
    let (_, f1) = DPNRedisKey::get_geo_kf("a_b".to_string(), "c".to_string());
    let (_, f2) = DPNRedisKey::get_geo_kf("a".to_string(), "b_c".to_string());
    assert_ne!(f1, f2);
    assert_eq!(f1, "3_a_b_c".to_string());
    assert_eq!(f2, "1_a_b_c".to_string());
}

#[test]
fn balance_key_and_field() {
    let (k, f) = DPNRedisKey::get_balance_kf("0xabc".to_string());
    assert_eq!(k, "client_user_balance".to_string());
    assert_eq!(f, "0xabc".to_string());
}

#[test]
fn peer_queue_key() {
    assert_eq!(
        DPNRedisKey::get_peer_queue_k("n1".to_string()),
        "peer_queue_ms#n1_".to_string()
    );
}

#[test]
fn peers_key_field_and_channel() {
    let (k, f) = DPNRedisKey::get_peers_kf("n1".to_string(), 16909060);
    assert_eq!(k, "peers_ms#n1".to_string());
    assert_eq!(f, "16909060".to_string());
    assert_eq!(
        DPNRedisKey::get_peers_chan("n1".to_string()),
        "peers_updated_ms#n1".to_string()
    );
}

#[test]
fn peers_field_renders_zero_and_max() {
    let (_, f) = DPNRedisKey::get_peers_kf("n".to_string(), 0);
    assert_eq!(f, "0".to_string());
    let (_, f) = DPNRedisKey::get_peers_kf("n".to_string(), u32::MAX);
    assert_eq!(f, "4294967295".to_string());
}

#[test]
fn price_names() {
    let (k, f) = DPNRedisKey::get_price_kf("0xabc".to_string());
    assert_eq!(k, "peer_price".to_string());
    assert_eq!(f, "0xabc".to_string());
    assert_eq!(DPNRedisKey::get_price_chan(), "price_updated".to_string());
}

#[test]
fn proxy_acc_names() {
    let (k, f) = DPNRedisKey::get_proxy_acc_kf("acc1".to_string());
    assert_eq!(k, "proxy_acc".to_string());
    assert_eq!(f, "acc1".to_string());
    assert_eq!(
        DPNRedisKey::get_proxy_acc_chan(),
        "proxy_acc_updated".to_string()
    );
}

#[test]
fn misc_bucket_names() {
    assert_eq!(
        DPNRedisKey::get_uptime_xp_kf("id".to_string()).0,
        "uptime_xp".to_string()
    );
    assert_eq!(
        DPNRedisKey::get_bonus_config_hash_key(),
        "bonus_config".to_string()
    );
    assert_eq!(
        DPNRedisKey::get_user_addr_geo_kf("0xabc".to_string()),
        ("user_addr_geo".to_string(), "0xabc".to_string())
    );
}

#[test]
fn milestone_names() {
    assert_eq!(
        DPNRedisKey::get_first_time_provider_kf("a".to_string()).0,
        "first_time_provider".to_string()
    );
    assert_eq!(
        DPNRedisKey::get_first_time_provider_chan(),
        "first_time_provider_updated".to_string()
    );
    assert_eq!(
        DPNRedisKey::get_withdrawal_reward_kf("a".to_string()).0,
        "withdrawal_reward".to_string()
    );
    assert_eq!(
        DPNRedisKey::get_withdrawal_reward_chan(),
        "withdrawal_reward_updated".to_string()
    );
    assert_eq!(
        DPNRedisKey::get_completed_8_hours_ot_kf("a".to_string()).0,
        "completed_8_hours_ot".to_string()
    );
    assert_eq!(
        DPNRedisKey::get_completed_8_hours_ot_chan(),
        "completed_8_hours_dl_updated".to_string()
    );
    assert_eq!(
        DPNRedisKey::get_invite_friend_one_time_kf("a".to_string()).0,
        "invite_friend_one_time".to_string()
    );
    assert_eq!(
        DPNRedisKey::get_invite_friend_one_time_chan(),
        "invite_friend_one_time_updated".to_string()
    );
    assert_eq!(
        DPNRedisKey::get_completed_time_per_day_kf("a".to_string()).0,
        "completed_time_per_day".to_string()
    );
    assert_eq!(
        DPNRedisKey::get_completed_time_per_day_chan(),
        "completed_time_per_day_updated".to_string()
    );
}
