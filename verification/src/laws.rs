//! The laws of the store and of the synchronization protocol, stated over
//! the abstract states that the operations' contracts use.

use crate::assoc::afind;
use crate::assoc::akeys_unique;
use crate::assoc::aput;
use crate::assoc::lemma_afind_none_converse;
use crate::assoc::lemma_aput_find;
use crate::assoc::lemma_aput_identity;
use crate::assoc::lemma_aput_len;
use crate::assoc::lemma_aput_unique;
use crate::assoc::lemma_aremove_absent;
use crate::assoc::lemma_aremove_find;
use crate::events::PeerChangedInfoV;
use crate::events::ProxyAccChangedV;
use crate::types::connection::ProxyAccDataV;
use crate::queue::ZStoreV;
use crate::store::lemma_afind_members;
use crate::store::lemma_bucket_unique;
use crate::store::lemma_store_put_wf;
use crate::store::BucketV;
use crate::store::StoreV;
use crate::sync::spec_disconnect_events;
use crate::sync::spec_proxy_mutation;
use vstd::prelude::*;

verus! {

/// A write followed by a read of the same bucket and field returns exactly
/// the value written.
pub proof fn lemma_put_then_get<V>(s: StoreV<V>, b: Seq<char>, f: Seq<char>, v: V)
    requires
        s.wf(),
    ensures
        s.put(b, f, v).wf(),
        s.put(b, f, v).get(b, f) == Some(v),
{
    lemma_store_put_wf(s, b, f, v);
    let nb = BucketV { fields: aput(s.live_fields(b), f, v), deadline: s.kept_deadline(b) };
    lemma_aput_find(s.buckets, b, nb, b);
    let t = s.put(b, f, v);
    assert(t.bucket(b) == Some(nb));
    assert(t.bucket_live(b));
    lemma_aput_find(s.live_fields(b), f, v, f);
}

/// A write leaves every other field of every bucket exactly as it was.
pub proof fn lemma_put_frame<V>(s: StoreV<V>, b: Seq<char>, f: Seq<char>, v: V, b2: Seq<char>, f2: Seq<char>)
    requires
        s.wf(),
        b2 != b || f2 != f,
    ensures
        s.put(b, f, v).get(b2, f2) == s.get(b2, f2),
{
    let nb = BucketV { fields: aput(s.live_fields(b), f, v), deadline: s.kept_deadline(b) };
    let t = s.put(b, f, v);
    if b2 != b {
        lemma_aput_find(s.buckets, b, nb, b2);
        assert(t.bucket(b2) == s.bucket(b2));
    } else {
        lemma_aput_find(s.buckets, b, nb, b2);
        assert(t.bucket(b) == Some(nb));
        assert(t.bucket_live(b));
        lemma_aput_find(s.live_fields(b), f, v, f2);
        if s.bucket_live(b) {
            assert(t.get(b2, f2) == s.get(b2, f2));
        } else {
            assert(s.live_fields(b) == Seq::<(Seq<char>, V)>::empty());
            assert(s.get(b2, f2) is None);
        }
    }
}

/// Deleting a field that is not there never fails and changes nothing; the
/// store's delete reports success either way.
pub proof fn lemma_hdel_absent<V>(s: StoreV<V>, b: Seq<char>, f: Seq<char>)
    requires
        s.wf(),
        s.get(b, f) is None,
    ensures
        s.hdel(b, f) == s,
{
    if s.bucket_live(b) {
        let bk = s.bucket(b)->Some_0;
        lemma_afind_none_converse(bk.fields, f);
        lemma_aremove_absent(bk.fields, f);
        assert(bk == (BucketV { fields: bk.fields, deadline: bk.deadline }));
        lemma_aput_identity(s.buckets, b);
        assert(s.hdel(b, f).buckets == aput(s.buckets, b, bk));
        assert(s.hdel(b, f) == s);
    }
}

/// After a delete the field reads as absent, so deleting twice is the same
/// as deleting once.
pub proof fn lemma_hdel_idempotent<V>(s: StoreV<V>, b: Seq<char>, f: Seq<char>)
    requires
        s.wf(),
    ensures
        s.hdel(b, f).get(b, f) is None,
        s.hdel(b, f).hdel(b, f) == s.hdel(b, f),
{
    crate::store::lemma_store_hdel_wf(s, b, f);
    let t = s.hdel(b, f);
    if s.bucket_live(b) {
        let bk = s.bucket(b)->Some_0;
        lemma_bucket_unique(s, b);
        lemma_aremove_find(bk.fields, f, f);
        let nb = BucketV { fields: crate::assoc::aremove(bk.fields, f), deadline: bk.deadline };
        lemma_aput_find(s.buckets, b, nb, b);
        assert(t.bucket(b) == Some(nb));
    }
    lemma_hdel_absent(t, b, f);
}

/// A bulk enumeration returns one entry per written field: writing a fresh
/// field grows the visible bucket by exactly one entry, and overwriting an
/// existing field keeps its size.
pub proof fn lemma_put_count<V>(s: StoreV<V>, b: Seq<char>, f: Seq<char>, v: V)
    requires
        s.wf(),
    ensures
        s.put(b, f, v).live_fields(b).len() == if s.get(b, f) is Some {
            s.live_fields(b).len() as int
        } else {
            s.live_fields(b).len() + 1int
        },
{
    let nb = BucketV { fields: aput(s.live_fields(b), f, v), deadline: s.kept_deadline(b) };
    let t = s.put(b, f, v);
    lemma_aput_find(s.buckets, b, nb, b);
    assert(t.bucket(b) == Some(nb));
    assert(t.bucket_live(b));
    lemma_aput_len(s.live_fields(b), f, v);
}

/// Enqueueing a member twice leaves exactly one binding for it, carrying
/// the score of the second enqueue; every other member keeps its score.
pub proof fn lemma_zadd_upsert(z: ZStoreV, k: Seq<char>, m: u32, s1: u32, s2: u32, m2: u32)
    requires
        z.wf(),
        m2 != m,
    ensures
        z.zadd(k, m, s1).zadd(k, m, s2).score(k, m) == Some(s2),
        akeys_unique(z.zadd(k, m, s1).zadd(k, m, s2).entries(k)),
        z.zadd(k, m, s1).zadd(k, m, s2).score(k, m2) == z.score(k, m2),
        z.zadd(k, m, s1).zadd(k, m, s2).entries(k).len() == z.zadd(k, m, s1).entries(k).len(),
{
    lemma_zadd_entries(z, k, m, s1);
    lemma_zadd_wf(z, k, m, s1);
    let z1 = z.zadd(k, m, s1);
    lemma_zadd_entries(z1, k, m, s2);
    lemma_aput_find(z.entries(k), m, s1, m2);
    lemma_aput_find(z1.entries(k), m, s2, m2);
    lemma_zadd_unique(z, k, m, s1);
    lemma_zadd_unique(z1, k, m, s2);
    lemma_aput_len(z1.entries(k), m, s2);
    lemma_aput_find(z.entries(k), m, s1, m);
}

/// After an enqueue the queue's table is the old table with the member
/// re-bound.
pub proof fn lemma_zadd_entries(z: ZStoreV, k: Seq<char>, m: u32, s: u32)
    ensures
        z.zadd(k, m, s).entries(k) == aput(z.entries(k), m, s),
{
    lemma_aput_find(z.sets, k, aput(z.entries(k), m, s), k);
}

/// Enqueueing preserves well-formedness of the queue store.
pub proof fn lemma_zadd_wf(z: ZStoreV, k: Seq<char>, m: u32, s: u32)
    requires
        z.wf(),
    ensures
        z.zadd(k, m, s).wf(),
{
    if afind(z.sets, k) is Some {
        lemma_afind_members(z.sets, k);
        let i = choose|i: int| 0 <= i < z.sets.len() && z.sets[i] == (k, afind(z.sets, k)->Some_0);
        assert(akeys_unique(z.sets[i].1));
    }
    lemma_aput_unique(z.entries(k), m, s);
    crate::queue::lemma_zstore_set_wf(z, k, aput(z.entries(k), m, s));
}

/// Enqueueing keeps the members of a well-formed queue unique.
pub proof fn lemma_zadd_unique(z: ZStoreV, k: Seq<char>, m: u32, s: u32)
    requires
        z.wf(),
    ensures
        akeys_unique(z.zadd(k, m, s).entries(k)),
{
    lemma_zadd_entries(z, k, m, s);
    if afind(z.sets, k) is Some {
        lemma_afind_members(z.sets, k);
        let i = choose|i: int| 0 <= i < z.sets.len() && z.sets[i] == (k, afind(z.sets, k)->Some_0);
        assert(akeys_unique(z.sets[i].1));
    }
    lemma_aput_unique(z.entries(k), m, s);
}

/// A deleted bucket reads as empty: every field is gone and an enumeration
/// returns nothing.
pub proof fn lemma_del_empties<V>(s: StoreV<V>, b: Seq<char>, f: Seq<char>)
    requires
        s.wf(),
    ensures
        s.del(b).get(b, f) is None,
        s.del(b).live_fields(b).len() == 0,
{
    lemma_aremove_find(s.buckets, b, b);
    assert(s.del(b).bucket(b) is None);
}

/// A peer sweep broadcasts exactly one disconnect per record it removes, on
/// the node's peer channel, carrying that record's identifying fields.
pub proof fn lemma_sweep_events(chan: Seq<char>, fs: Seq<(Seq<char>, PeerChangedInfoV)>)
    ensures
        spec_disconnect_events(chan, fs).len() == fs.len(),
        forall|i: int|
            0 <= i < fs.len() ==> #[trigger] spec_disconnect_events(chan, fs)[i] == (
                chan,
                crate::events::ChangeEventV::Peer(
                    crate::events::PeerChangedV::Disconnected(fs[i].1),
                ),
            ),
{
}

/// The refresh-all signal mutates nothing: the proxy-account bucket after
/// publishing it is exactly the bucket before.
pub proof fn lemma_refresh_all_pure(s: StoreV<ProxyAccDataV>)
    ensures
        spec_proxy_mutation(s, ProxyAccChangedV::RefreshAll) == s,
{
}

/// A write with expiry is immediately readable, and once the expiry
/// elapses the whole bucket reads as absent.
pub proof fn lemma_put_with_expiry<V>(s: StoreV<V>, b: Seq<char>, f: Seq<char>, v: V, ttl: u64, d: u64)
    requires
        s.wf(),
        s.now + ttl <= u64::MAX,
    ensures
        ttl > 0 ==> s.put(b, f, v).expire(b, (s.now + ttl) as u64).get(b, f) == Some(v),
        d >= ttl ==> s.put(b, f, v).expire(b, (s.now + ttl) as u64).tick(d).get(b, f) is None,
{
    let nb = BucketV { fields: aput(s.live_fields(b), f, v), deadline: s.kept_deadline(b) };
    let t = s.put(b, f, v);
    lemma_aput_find(s.buckets, b, nb, b);
    assert(t.bucket(b) == Some(nb));
    assert(t.bucket_live(b));
    let deadline = (s.now + ttl) as u64;
    let nb2 = BucketV { fields: nb.fields, deadline: Some(deadline) };
    let t2 = t.expire(b, deadline);
    lemma_aput_find(t.buckets, b, nb2, b);
    assert(t2.bucket(b) == Some(nb2));
    if ttl > 0 {
        assert(t2.bucket_live(b));
        lemma_aput_find(s.live_fields(b), f, v, f);
    }
    if d >= ttl {
        let t3 = t2.tick(d);
        assert(t3.bucket(b) == Some(nb2));
        assert(deadline <= t3.now);
        assert(!t3.bucket_live(b));
    }
}

} // verus!
