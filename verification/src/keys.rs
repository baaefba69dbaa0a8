//! The key schema resolver.
//!
//! Every entity kind owns exactly one bucket name and, where broadcasts
//! apply, exactly one channel name; per-node kinds parameterize the name by
//! the node identifier.  All names are pure functions of the entity's
//! natural identifiers — no randomness, no clock — so they are stable
//! across process restarts, and no other component may construct them by
//! any other means.

use crate::text::lemma_affix_cancel;
use crate::text::lemma_dec_digits;
use crate::text::lemma_dec_injective;
use crate::text::lemma_prefix_cancel;
use crate::text::spec_dec;
use crate::text::u32_to_string;
use crate::text::u64_to_string;
use vstd::prelude::*;
use vstd::string::StrSliceExecFns;
use vstd::string::StringExecFns;

verus! {

/// Bucket of the peer-geography records.
pub open spec fn spec_geo_bucket() -> Seq<char> {
    "peer_geo"@
}

/// Field of one peer-geography record: the node id, prefixed with its
/// decimal length, joined with the login session id.  The length prefix
/// keeps distinct id pairs distinct even where a node id itself contains
/// the separator.
pub open spec fn spec_geo_field(m: Seq<char>, l: Seq<char>) -> Seq<char> {
    spec_dec(m.len()) + "_"@ + m + "_"@ + l
}

/// Bucket of the client balance records.
pub open spec fn spec_balance_bucket() -> Seq<char> {
    "client_user_balance"@
}

/// Sorted-set key of one node's peer queue.
pub open spec fn spec_peer_queue_key(m: Seq<char>) -> Seq<char> {
    "peer_queue_ms#"@ + m + "_"@
}

/// Bucket of one node's peer records.
pub open spec fn spec_peers_bucket(m: Seq<char>) -> Seq<char> {
    "peers_ms#"@ + m
}

/// Field of one peer record: the peer's numeric address in decimal.
pub open spec fn spec_peers_field(ip_u32: u32) -> Seq<char> {
    spec_dec(ip_u32 as nat)
}

/// Channel of one node's peer broadcasts.
pub open spec fn spec_peers_chan(m: Seq<char>) -> Seq<char> {
    "peers_updated_ms#"@ + m
}

/// Bucket of the price records.
pub open spec fn spec_price_bucket() -> Seq<char> {
    "peer_price"@
}

/// Channel of the price broadcasts.
pub open spec fn spec_price_chan() -> Seq<char> {
    "price_updated"@
}

/// Bucket of the proxy-account records.
pub open spec fn spec_proxy_acc_bucket() -> Seq<char> {
    "proxy_acc"@
}

/// Channel of the proxy-account broadcasts.
pub open spec fn spec_proxy_acc_chan() -> Seq<char> {
    "proxy_acc_updated"@
}

/// Bucket of the uptime experience records.
pub open spec fn spec_uptime_xp_bucket() -> Seq<char> {
    "uptime_xp"@
}

/// Key of the bonus configuration hash.
pub open spec fn spec_bonus_config_key() -> Seq<char> {
    "bonus_config"@
}

/// Bucket of the first-time-provider milestones.
pub open spec fn spec_first_time_provider_bucket() -> Seq<char> {
    "first_time_provider"@
}

/// Channel of the first-time-provider broadcasts.
pub open spec fn spec_first_time_provider_chan() -> Seq<char> {
    "first_time_provider_updated"@
}

/// Bucket of the withdrawal-reward milestones.
pub open spec fn spec_withdrawal_reward_bucket() -> Seq<char> {
    "withdrawal_reward"@
}

/// Channel of the withdrawal-reward broadcasts.
pub open spec fn spec_withdrawal_reward_chan() -> Seq<char> {
    "withdrawal_reward_updated"@
}

/// Bucket of the eight-hour-completion milestones.
pub open spec fn spec_completed_8_hours_ot_bucket() -> Seq<char> {
    "completed_8_hours_ot"@
}

/// Channel of the eight-hour-completion broadcasts.
pub open spec fn spec_completed_8_hours_ot_chan() -> Seq<char> {
    "completed_8_hours_dl_updated"@
}

/// Bucket of the one-time-invite milestones.
pub open spec fn spec_invite_friend_one_time_bucket() -> Seq<char> {
    "invite_friend_one_time"@
}

/// Channel of the one-time-invite broadcasts.
pub open spec fn spec_invite_friend_one_time_chan() -> Seq<char> {
    "invite_friend_one_time_updated"@
}

/// Bucket of the per-day-completion milestones.
pub open spec fn spec_completed_time_per_day_bucket() -> Seq<char> {
    "completed_time_per_day"@
}

/// Channel of the per-day-completion broadcasts.
pub open spec fn spec_completed_time_per_day_chan() -> Seq<char> {
    "completed_time_per_day_updated"@
}

/// Bucket of the user-address-geography records.
pub open spec fn spec_user_addr_geo_bucket() -> Seq<char> {
    "user_addr_geo"@
}

/// Resolver of every bucket, field and channel name.
pub struct DPNRedisKey {}

impl DPNRedisKey {
    /// Bucket and field of one peer-geography record.
    pub fn get_geo_kf(masternode_id: String, login_session_id: String) -> (r: (String, String))
        ensures
            r.0@ == spec_geo_bucket(),
            r.1@ == spec_geo_field(masternode_id@, login_session_id@),
    {
        let n = masternode_id.as_str().unicode_len();
        let mut f = u64_to_string(n as u64);
        f.append("_");
        f.append(masternode_id.as_str());
        f.append("_");
        f.append(login_session_id.as_str());
        proof {
            assert(n as nat == masternode_id@.len());
        }
        ("peer_geo".to_owned(), f)
    }

    /// Bucket and field of one client balance record.
    pub fn get_balance_kf(user_addr: String) -> (r: (String, String))
        ensures
            r.0@ == spec_balance_bucket(),
            r.1 == user_addr,
    {
        ("client_user_balance".to_owned(), user_addr)
    }

    /// Sorted-set key of one node's peer queue.
    pub fn get_peer_queue_k(masternode_id: String) -> (r: String)
        ensures
            r@ == spec_peer_queue_key(masternode_id@),
    {
        String::from_str("peer_queue_ms#").concat(masternode_id.as_str()).concat("_")
    }

    /// Bucket and field of one peer record.
    pub fn get_peers_kf(masternode_id: String, ip_u32: u32) -> (r: (String, String))
        ensures
            r.0@ == spec_peers_bucket(masternode_id@),
            r.1@ == spec_peers_field(ip_u32),
    {
        (String::from_str("peers_ms#").concat(masternode_id.as_str()), u32_to_string(ip_u32))
    }

    /// Channel of one node's peer broadcasts.
    pub fn get_peers_chan(masternode_id: String) -> (r: String)
        ensures
            r@ == spec_peers_chan(masternode_id@),
    {
        String::from_str("peers_updated_ms#").concat(masternode_id.as_str())
    }

    /// Bucket and field of one price record.
    pub fn get_price_kf(peer_addr: String) -> (r: (String, String))
        ensures
            r.0@ == spec_price_bucket(),
            r.1 == peer_addr,
    {
        ("peer_price".to_owned(), peer_addr)
    }

    /// Bucket and field of one proxy-account record.
    pub fn get_proxy_acc_kf(id: String) -> (r: (String, String))
        ensures
            r.0@ == spec_proxy_acc_bucket(),
            r.1 == id,
    {
        ("proxy_acc".to_owned(), id)
    }

    /// Bucket and field of one uptime experience record.
    pub fn get_uptime_xp_kf(id: String) -> (r: (String, String))
        ensures
            r.0@ == spec_uptime_xp_bucket(),
            r.1 == id,
    {
        ("uptime_xp".to_owned(), id)
    }

    /// Channel of the proxy-account broadcasts.
    pub fn get_proxy_acc_chan() -> (r: String)
        ensures
            r@ == spec_proxy_acc_chan(),
    {
        "proxy_acc_updated".to_owned()
    }

    /// Channel of the price broadcasts.
    pub fn get_price_chan() -> (r: String)
        ensures
            r@ == spec_price_chan(),
    {
        "price_updated".to_owned()
    }

    /// Key of the bonus configuration hash.
    pub fn get_bonus_config_hash_key() -> (r: String)
        ensures
            r@ == spec_bonus_config_key(),
    {
        "bonus_config".to_owned()
    }

    /// Bucket and field of one first-time-provider milestone.
    pub fn get_first_time_provider_kf(id: String) -> (r: (String, String))
        ensures
            r.0@ == spec_first_time_provider_bucket(),
            r.1 == id,
    {
        ("first_time_provider".to_owned(), id)
    }

    /// Channel of the first-time-provider broadcasts.
    pub fn get_first_time_provider_chan() -> (r: String)
        ensures
            r@ == spec_first_time_provider_chan(),
    {
        "first_time_provider_updated".to_owned()
    }

    /// Bucket and field of one withdrawal-reward milestone.
    pub fn get_withdrawal_reward_kf(id: String) -> (r: (String, String))
        ensures
            r.0@ == spec_withdrawal_reward_bucket(),
            r.1 == id,
    {
        ("withdrawal_reward".to_owned(), id)
    }

    /// Channel of the withdrawal-reward broadcasts.
    pub fn get_withdrawal_reward_chan() -> (r: String)
        ensures
            r@ == spec_withdrawal_reward_chan(),
    {
        "withdrawal_reward_updated".to_owned()
    }

    /// Bucket and field of one eight-hour-completion milestone.
    pub fn get_completed_8_hours_ot_kf(id: String) -> (r: (String, String))
        ensures
            r.0@ == spec_completed_8_hours_ot_bucket(),
            r.1 == id,
    {
        ("completed_8_hours_ot".to_owned(), id)
    }

    /// Channel of the eight-hour-completion broadcasts.
    pub fn get_completed_8_hours_ot_chan() -> (r: String)
        ensures
            r@ == spec_completed_8_hours_ot_chan(),
    {
        "completed_8_hours_dl_updated".to_owned()
    }

    /// Bucket and field of one one-time-invite milestone.
    pub fn get_invite_friend_one_time_kf(id: String) -> (r: (String, String))
        ensures
            r.0@ == spec_invite_friend_one_time_bucket(),
            r.1 == id,
    {
        ("invite_friend_one_time".to_owned(), id)
    }

    /// Channel of the one-time-invite broadcasts.
    pub fn get_invite_friend_one_time_chan() -> (r: String)
        ensures
            r@ == spec_invite_friend_one_time_chan(),
    {
        "invite_friend_one_time_updated".to_owned()
    }

    /// Bucket and field of one per-day-completion milestone.
    pub fn get_completed_time_per_day_kf(id: String) -> (r: (String, String))
        ensures
            r.0@ == spec_completed_time_per_day_bucket(),
            r.1 == id,
    {
        ("completed_time_per_day".to_owned(), id)
    }

    /// Channel of the per-day-completion broadcasts.
    pub fn get_completed_time_per_day_chan() -> (r: String)
        ensures
            r@ == spec_completed_time_per_day_chan(),
    {
        "completed_time_per_day_updated".to_owned()
    }

    /// Bucket and field of one user-address-geography record.
    pub fn get_user_addr_geo_kf(user_addr: String) -> (r: (String, String))
        ensures
            r.0@ == spec_user_addr_geo_bucket(),
            r.1 == user_addr,
    {
        ("user_addr_geo".to_owned(), user_addr)
    }
}


/// Where each part of a geo field sits.
proof fn lemma_geo_field_index(m: Seq<char>, l: Seq<char>)
    ensures
        spec_geo_field(m, l).len() == spec_dec(m.len()).len() + 2 + m.len() + l.len(),
        forall|i: int|
            0 <= i < spec_dec(m.len()).len() ==> #[trigger] spec_geo_field(m, l)[i] == spec_dec(
                m.len(),
            )[i],
        spec_geo_field(m, l)[spec_dec(m.len()).len() as int] == '_',
        forall|j: int|
            0 <= j < m.len() ==> #[trigger] spec_geo_field(m, l)[spec_dec(m.len()).len() + 1 + j]
                == m[j],
        spec_geo_field(m, l)[(spec_dec(m.len()).len() + 1 + m.len()) as int] == '_',
        forall|j: int|
            0 <= j < l.len() ==> #[trigger] spec_geo_field(m, l)[spec_dec(m.len()).len() + 2
                + m.len() + j] == l[j],
{
    reveal_strlit("_");
    let d = spec_dec(m.len());
    let a = d + "_"@;
    let b = a + m;
    let c = b + "_"@;
    let s = spec_geo_field(m, l);
    assert(s == c + l);
    assert("_"@.len() == 1);
    assert("_"@[0] == '_');
    assert forall|i: int| 0 <= i < d.len() implies #[trigger] s[i] == d[i] by {
        assert(a[i] == d[i]);
        assert(b[i] == a[i]);
        assert(c[i] == b[i]);
        assert(s[i] == c[i]);
    }
    assert(a[d.len() as int] == '_');
    assert(b[d.len() as int] == a[d.len() as int]);
    assert(c[d.len() as int] == b[d.len() as int]);
    assert(s[d.len() as int] == c[d.len() as int]);
    assert forall|j: int| 0 <= j < m.len() implies #[trigger] s[d.len() + 1 + j] == m[j] by {
        assert(b[d.len() + 1 + j] == m[j]);
        assert(c[d.len() + 1 + j] == b[d.len() + 1 + j]);
        assert(s[d.len() + 1 + j] == c[d.len() + 1 + j]);
    }
    assert(c[(d.len() + 1 + m.len()) as int] == '_');
    assert(s[(d.len() + 1 + m.len()) as int] == c[(d.len() + 1 + m.len()) as int]);
    assert forall|j: int| 0 <= j < l.len() implies #[trigger] s[d.len() + 2 + m.len() + j]
        == l[j] by {
        assert(s[c.len() + j] == l[j]);
    }
}

/// Distinct (node, login session) pairs never share a geo field.
pub proof fn lemma_geo_field_injective(m1: Seq<char>, l1: Seq<char>, m2: Seq<char>, l2: Seq<char>)
    requires
        spec_geo_field(m1, l1) == spec_geo_field(m2, l2),
    ensures
        m1 == m2,
        l1 == l2,
{
    lemma_geo_field_index(m1, l1);
    lemma_geo_field_index(m2, l2);
    lemma_dec_digits(m1.len());
    lemma_dec_digits(m2.len());
    let d1 = spec_dec(m1.len());
    let d2 = spec_dec(m2.len());
    let s = spec_geo_field(m1, l1);
    if d1.len() < d2.len() {
        assert(s[d1.len() as int] == '_');
        assert(s[d1.len() as int] == d2[d1.len() as int]);
        assert('0' <= d2[d1.len() as int] <= '9');
        assert(false);
    }
    if d2.len() < d1.len() {
        assert(s[d2.len() as int] == '_');
        assert(s[d2.len() as int] == d1[d2.len() as int]);
        assert('0' <= d1[d2.len() as int] <= '9');
        assert(false);
    }
    assert(d1.len() == d2.len());
    assert forall|i: int| 0 <= i < d1.len() implies d1[i] == d2[i] by {
        assert(s[i] == d1[i]);
        assert(s[i] == d2[i]);
    }
    assert(d1 =~= d2);
    lemma_dec_injective(m1.len(), m2.len());
    assert(m1.len() == m2.len());
    assert forall|j: int| 0 <= j < m1.len() implies m1[j] == m2[j] by {
        assert(s[d1.len() + 1 + j] == m1[j]);
        assert(s[d2.len() + 1 + j] == m2[j]);
    }
    assert(m1 =~= m2);
    assert(s.len() == d1.len() + 2 + m1.len() + l1.len());
    assert(s.len() == d2.len() + 2 + m2.len() + l2.len());
    assert(l1.len() == l2.len());
    assert forall|j: int| 0 <= j < l1.len() implies l1[j] == l2[j] by {
        assert(s[d1.len() + 2 + m1.len() + j] == l1[j]);
        assert(s[d2.len() + 2 + m2.len() + j] == l2[j]);
    }
    assert(l1 =~= l2);
}

/// Distinct nodes never share a peer bucket.
pub proof fn lemma_peers_bucket_injective(m1: Seq<char>, m2: Seq<char>)
    requires
        spec_peers_bucket(m1) == spec_peers_bucket(m2),
    ensures
        m1 == m2,
{
    lemma_prefix_cancel("peers_ms#"@, m1, m2);
}

/// Distinct nodes never share a peer channel.
pub proof fn lemma_peers_chan_injective(m1: Seq<char>, m2: Seq<char>)
    requires
        spec_peers_chan(m1) == spec_peers_chan(m2),
    ensures
        m1 == m2,
{
    lemma_prefix_cancel("peers_updated_ms#"@, m1, m2);
}

/// Distinct nodes never share a peer queue.
pub proof fn lemma_peer_queue_key_injective(m1: Seq<char>, m2: Seq<char>)
    requires
        spec_peer_queue_key(m1) == spec_peer_queue_key(m2),
    ensures
        m1 == m2,
{
    lemma_affix_cancel("peer_queue_ms#"@, "_"@, m1, m2);
}

/// Distinct peer addresses never share a field within a peer bucket.
pub proof fn lemma_peers_field_injective(a: u32, b: u32)
    requires
        spec_peers_field(a) == spec_peers_field(b),
    ensures
        a == b,
{
    crate::text::lemma_dec_injective(a as nat, b as nat);
}

} // verus!
