//! The typed record store: hash-structured buckets of field→value entries
//! with optional whole-bucket expiry.
//!
//! `HashStore<T>` is the verified in-memory model of one key-value namespace
//! holding records of one entity kind.  Its abstract state is a `StoreV`
//! value: a table of buckets, each a table of fields, together with a
//! logical clock and an availability flag.  The availability flag models the
//! store endpoint being reachable; flipping it off makes every operation
//! fail with `StoreUnavailable`, which is how partial-failure behaviour of
//! the multi-phase protocols is exercised.

use crate::assoc::afind;
use crate::assoc::akeys_unique;
use crate::assoc::aput;
use crate::assoc::aremove;
use crate::assoc::lemma_afind_at;
use crate::assoc::lemma_afind_none;
use crate::assoc::lemma_aput_push;
use crate::assoc::lemma_aput_unique;
use crate::assoc::lemma_aput_update;
use crate::assoc::lemma_aremove_absent;
use crate::assoc::lemma_aremove_at;
use crate::assoc::lemma_aremove_find;
use crate::assoc::vfind_index;
use crate::errors::StoreError;
use vstd::pervasive::VecAdditionalExecFns;
use vstd::prelude::*;

verus! {

/// A record value that can be copied without changing its abstract value.
///
/// The store hands out copies of stored records; this trait is what makes a
/// copy indistinguishable from the original at the specification level.
pub trait DupValue: View + Sized {
    /// Produces a copy with the same abstract value.
    fn dup(&self) -> (r: Self)
        ensures
            r@ == self@,
    ;
}

/// One hash bucket: an association table of fields plus an optional expiry
/// deadline on the logical clock.
pub struct Bucket<T> {
    fields: Vec<(String, T)>,
    deadline: Option<u64>,
}

/// Abstract state of one bucket.
pub ghost struct BucketV<V> {
    pub fields: Seq<(Seq<char>, V)>,
    pub deadline: Option<u64>,
}

/// Abstract state of the whole store.
pub ghost struct StoreV<V> {
    pub buckets: Seq<(Seq<char>, BucketV<V>)>,
    pub now: u64,
    pub available: bool,
}

impl<V> StoreV<V> {
    /// Keys are unique at both levels.
    pub open spec fn wf(self) -> bool {
        &&& akeys_unique(self.buckets)
        &&& forall|i: int|
            0 <= i < self.buckets.len() ==> akeys_unique(#[trigger] self.buckets[i].1.fields)
    }

    /// The bucket bound to `b`, expired or not.
    pub open spec fn bucket(self, b: Seq<char>) -> Option<BucketV<V>> {
        afind(self.buckets, b)
    }

    /// Whether `b` holds a bucket that has not expired.
    pub open spec fn bucket_live(self, b: Seq<char>) -> bool {
        match self.bucket(b) {
            Some(bk) => match bk.deadline {
                Some(d) => d > self.now,
                None => true,
            },
            None => false,
        }
    }

    /// The visible fields of bucket `b`: empty if the bucket is absent or
    /// its expiry has elapsed.
    pub open spec fn live_fields(self, b: Seq<char>) -> Seq<(Seq<char>, V)> {
        if self.bucket_live(b) {
            self.bucket(b)->Some_0.fields
        } else {
            Seq::empty()
        }
    }

    /// The value visible at `(b, f)`.
    pub open spec fn get(self, b: Seq<char>, f: Seq<char>) -> Option<V> {
        afind(self.live_fields(b), f)
    }

    /// The deadline kept by a write: an existing live bucket keeps its
    /// deadline, otherwise the write creates a fresh bucket with none.
    pub open spec fn kept_deadline(self, b: Seq<char>) -> Option<u64> {
        if self.bucket_live(b) {
            self.bucket(b)->Some_0.deadline
        } else {
            None
        }
    }

    /// Writes `v` at `(b, f)`.  An absent or expired bucket is replaced by a
    /// fresh one holding only the new field.
    pub open spec fn put(self, b: Seq<char>, f: Seq<char>, v: V) -> StoreV<V> {
        StoreV {
            buckets: aput(
                self.buckets,
                b,
                BucketV { fields: aput(self.live_fields(b), f, v), deadline: self.kept_deadline(b) },
            ),
            ..self
        }
    }

    /// Deletes field `f` of bucket `b`; absent fields and dead buckets are
    /// left as they are.
    pub open spec fn hdel(self, b: Seq<char>, f: Seq<char>) -> StoreV<V> {
        if self.bucket_live(b) {
            let bk = self.bucket(b)->Some_0;
            StoreV {
                buckets: aput(
                    self.buckets,
                    b,
                    BucketV { fields: aremove(bk.fields, f), deadline: bk.deadline },
                ),
                ..self
            }
        } else {
            self
        }
    }

    /// Deletes bucket `b` with all its fields.
    pub open spec fn del(self, b: Seq<char>) -> StoreV<V> {
        StoreV { buckets: aremove(self.buckets, b), ..self }
    }

    /// Sets the expiry deadline of a live bucket; a dead or absent bucket is
    /// left as it is.
    pub open spec fn expire(self, b: Seq<char>, deadline: u64) -> StoreV<V> {
        if self.bucket_live(b) {
            let bk = self.bucket(b)->Some_0;
            StoreV {
                buckets: aput(
                    self.buckets,
                    b,
                    BucketV { fields: bk.fields, deadline: Some(deadline) },
                ),
                ..self
            }
        } else {
            self
        }
    }

    /// Advances the logical clock by `d`, saturating at the clock's maximum.
    pub open spec fn tick(self, d: u64) -> StoreV<V> {
        StoreV {
            now: if self.now + d <= u64::MAX {
                (self.now + d) as u64
            } else {
                u64::MAX
            },
            ..self
        }
    }

    /// Sets the availability flag.
    pub open spec fn with_available(self, a: bool) -> StoreV<V> {
        StoreV { available: a, ..self }
    }
}

/// The hash bucket store for one record type.
pub struct HashStore<T> {
    buckets: Vec<(String, Bucket<T>)>,
    now: u64,
    available: bool,
}

/// Abstract state of one executable bucket.
pub closed spec fn bucket_view<T: View>(b: Bucket<T>) -> BucketV<T::V> {
    BucketV {
        fields: b.fields@.map_values(|q: (String, T)| (q.0@, q.1@)),
        deadline: b.deadline,
    }
}

impl<T: View> View for HashStore<T> {
    type V = StoreV<T::V>;

    closed spec fn view(&self) -> StoreV<T::V> {
        StoreV {
            buckets: self.buckets@.map_values(|p: (String, Bucket<T>)| (p.0@, bucket_view(p.1))),
            now: self.now,
            available: self.available,
        }
    }
}

impl<T: DupValue> HashStore<T> {
    /// A fresh, empty, reachable store at clock zero.
    pub fn new() -> (s: Self)
        ensures
            s@.buckets == Seq::<(Seq<char>, BucketV<T::V>)>::empty(),
            s@.now == 0,
            s@.available,
            s@.wf(),
    {
        let s = HashStore { buckets: Vec::new(), now: 0, available: true };
        proof {
            assert(s@.buckets =~= Seq::<(Seq<char>, BucketV<T::V>)>::empty());
        }
        s
    }

    /// Writes `value` into field `field` of bucket `key`, overwriting any
    /// existing value.
    pub fn hset(&mut self, key: String, field: String, value: T) -> (r: Result<(), StoreError>)
        requires
            old(self)@.wf(),
        ensures
            final(self)@.wf(),
            match r {
                Ok(()) => old(self)@.available && final(self)@ == old(self)@.put(
                    key@,
                    field@,
                    value@,
                ),
                Err(e) => e == StoreError::StoreUnavailable && !old(self)@.available && final(self)@
                    == old(self)@,
            },
    {
        if !self.available {
            return Err(StoreError::StoreUnavailable);
        }
        let ghost pre = self@;
        let ghost kv = key@;
        let ghost fv = field@;
        let ghost vv = value@;
        match vfind_index(&self.buckets, &key) {
            Some(i) => {
                proof {
                    assert(pre.buckets[i as int].0 == kv);
                    assert forall|j: int| 0 <= j < i implies pre.buckets[j].0 != kv by {
                        assert(pre.buckets[j].0 == self.buckets@[j].0@);
                    }
                    lemma_afind_at(pre.buckets, kv, i as int);
                    assert(pre.bucket(kv) == Some(pre.buckets[i as int].1));
                    assert(pre.buckets[i as int].1 == bucket_view(self.buckets@[i as int].1));
                }
                let live = match self.buckets[i].1.deadline {
                    Some(d) => d > self.now,
                    None => true,
                };
                proof {
                    assert(live == pre.bucket_live(kv));
                }
                if live {
                    let mut pair = self.buckets.remove(i);
                    let ghost oldfields = bucket_view(pair.1).fields;
                    proof {
                        assert(oldfields == pre.live_fields(kv));
                    }
                    match vfind_index(&pair.1.fields, &field) {
                        Some(j) => {
                            proof {
                                assert(oldfields[j as int].0 == fv);
                                assert forall|l: int| 0 <= l < j implies oldfields[l].0 != fv by {
                                    assert(oldfields[l].0 == pair.1.fields@[l].0@);
                                }
                                lemma_aput_update(oldfields, fv, vv, j as int);
                            }
                            pair.1.fields.set(j, (field, value));
                        },
                        None => {
                            proof {
                                assert forall|l: int| 0 <= l < oldfields.len() implies oldfields[l].0
                                    != fv by {
                                    assert(oldfields[l].0 == pair.1.fields@[l].0@);
                                }
                                lemma_aput_push(oldfields, fv, vv);
                            }
                            pair.1.fields.push((field, value));
                        },
                    }
                    proof {
                        assert(bucket_view(pair.1).fields =~= aput(oldfields, fv, vv));
                    }
                    let ghost nb = BucketV { fields: aput(oldfields, fv, vv), deadline: pre.kept_deadline(kv) };
                    proof {
                        assert(bucket_view(pair.1) == nb);
                    }
                    self.buckets.insert(i, pair);
                    proof {
                        lemma_aput_update(pre.buckets, kv, nb, i as int);
                        assert(self@.buckets =~= pre.buckets.update(i as int, (kv, nb)));
                        assert(self@ == pre.put(kv, fv, vv));
                        lemma_store_put_wf(pre, kv, fv, vv);
                    }
                } else {
                    let mut fields: Vec<(String, T)> = Vec::new();
                    fields.push((field, value));
                    let fresh = Bucket { fields, deadline: None };
                    let ghost nb = BucketV::<T::V> { fields: seq![(fv, vv)], deadline: None };
                    proof {
                        assert(bucket_view(fresh).fields =~= seq![(fv, vv)]);
                        assert(bucket_view(fresh) == nb);
                        assert(pre.live_fields(kv) == Seq::<(Seq<char>, T::V)>::empty());
                        assert(aput(pre.live_fields(kv), fv, vv) == seq![(fv, vv)]);
                        lemma_aput_update(pre.buckets, kv, nb, i as int);
                    }
                    self.buckets.set(i, (key, fresh));
                    proof {
                        assert(self@.buckets =~= pre.buckets.update(i as int, (kv, nb)));
                        assert(self@ == pre.put(kv, fv, vv));
                        lemma_store_put_wf(pre, kv, fv, vv);
                    }
                }
            },
            None => {
                proof {
                    assert forall|j: int| 0 <= j < pre.buckets.len() implies pre.buckets[j].0
                        != kv by {
                        assert(pre.buckets[j].0 == self.buckets@[j].0@);
                    }
                    lemma_afind_none(pre.buckets, kv);
                }
                let mut fields: Vec<(String, T)> = Vec::new();
                fields.push((field, value));
                let fresh = Bucket { fields, deadline: None };
                let ghost nb = BucketV::<T::V> { fields: seq![(fv, vv)], deadline: None };
                proof {
                    assert(bucket_view(fresh).fields =~= seq![(fv, vv)]);
                    assert(bucket_view(fresh) == nb);
                    assert(pre.live_fields(kv) == Seq::<(Seq<char>, T::V)>::empty());
                    assert(aput(pre.live_fields(kv), fv, vv) == seq![(fv, vv)]);
                    lemma_aput_push(pre.buckets, kv, nb);
                }
                self.buckets.push((key, fresh));
                proof {
                    assert(self@.buckets =~= pre.buckets.push((kv, nb)));
                    assert(self@ == pre.put(kv, fv, vv));
                    lemma_store_put_wf(pre, kv, fv, vv);
                }
            },
        }
        Ok(())
    }


    /// Writes `value` as `hset` does, then sets the expiry of the whole
    /// bucket to `ttl_seconds` from now.  At the real store the two steps
    /// are separate calls: the write stays in effect even where the expiry
    /// step fails after it.
    pub fn hset_with_ttl(
        &mut self,
        key: String,
        field: String,
        value: T,
        ttl_seconds: u64,
    ) -> (r: Result<(), StoreError>)
        requires
            old(self)@.wf(),
            old(self)@.now + ttl_seconds <= u64::MAX,
        ensures
            final(self)@.wf(),
            match r {
                Ok(()) => old(self)@.available && final(self)@ == old(self)@.put(
                    key@,
                    field@,
                    value@,
                ).expire(key@, (old(self)@.now + ttl_seconds) as u64),
                Err(e) => e == StoreError::StoreUnavailable && !old(self)@.available && final(self)@
                    == old(self)@,
            },
    {
        let deadline = self.now + ttl_seconds;
        match self.hset(key.clone(), field, value) {
            Ok(()) => {},
            Err(e) => {
                return Err(e);
            },
        }
        match self.expire(key, deadline) {
            Ok(()) => Ok(()),
            Err(e) => {
                // the write succeeded and the write does not flip
                // availability, so the expiry step cannot fail here
                proof {
                    assert(false);
                }
                Err(e)
            },
        }
    }

    /// Reads the value at `(key, field)`.
    pub fn hget(&self, key: String, field: String) -> (r: Result<T, StoreError>)
        requires
            self@.wf(),
        ensures
            match r {
                Ok(v) => self@.available && self@.get(key@, field@) == Some(v@),
                Err(e) => match e {
                    StoreError::StoreUnavailable => !self@.available,
                    StoreError::NotFound => self@.available && self@.get(key@, field@) is None,
                    _ => false,
                },
            },
    {
        if !self.available {
            return Err(StoreError::StoreUnavailable);
        }
        let ghost kv = key@;
        let ghost fv = field@;
        match vfind_index(&self.buckets, &key) {
            Some(i) => {
                proof {
                    assert(self@.buckets[i as int].0 == kv);
                    assert forall|j: int| 0 <= j < i implies self@.buckets[j].0 != kv by {
                        assert(self@.buckets[j].0 == self.buckets@[j].0@);
                    }
                    lemma_afind_at(self@.buckets, kv, i as int);
                    assert(self@.bucket(kv) == Some(self@.buckets[i as int].1));
                    assert(self@.buckets[i as int].1 == bucket_view(self.buckets@[i as int].1));
                }
                let live = match self.buckets[i].1.deadline {
                    Some(d) => d > self.now,
                    None => true,
                };
                if !live {
                    proof {
                        assert(self@.get(kv, fv) is None);
                    }
                    return Err(StoreError::NotFound);
                }
                let ghost fs = self@.live_fields(kv);
                proof {
                    assert forall|l: int| 0 <= l < fs.len() implies fs[l] == (
                        self.buckets@[i as int].1.fields@[l].0@,
                        self.buckets@[i as int].1.fields@[l].1@,
                    ) by {}
                }
                match vfind_index(&self.buckets[i].1.fields, &field) {
                    Some(j) => {
                        proof {
                            assert(fs[j as int].0 == fv);
                            assert forall|l: int| 0 <= l < j implies fs[l].0 != fv by {}
                            lemma_afind_at(fs, fv, j as int);
                        }
                        Ok(self.buckets[i].1.fields[j].1.dup())
                    },
                    None => {
                        proof {
                            assert forall|l: int| 0 <= l < fs.len() implies fs[l].0 != fv by {}
                            lemma_afind_none(fs, fv);
                        }
                        Err(StoreError::NotFound)
                    },
                }
            },
            None => {
                proof {
                    assert forall|j: int| 0 <= j < self@.buckets.len() implies self@.buckets[j].0
                        != kv by {
                        assert(self@.buckets[j].0 == self.buckets@[j].0@);
                    }
                    lemma_afind_none(self@.buckets, kv);
                }
                Err(StoreError::NotFound)
            },
        }
    }

    /// Enumerates every visible field of bucket `key`, in table order.
    pub fn hgetall(&self, key: String) -> (r: Result<Vec<(String, T)>, StoreError>)
        requires
            self@.wf(),
        ensures
            match r {
                Ok(rs) => {
                    &&& self@.available
                    &&& rs@.len() == self@.live_fields(key@).len()
                    &&& forall|i: int|
                        0 <= i < rs@.len() ==> (#[trigger] rs@[i]).0@ == self@.live_fields(
                            key@,
                        )[i].0 && rs@[i].1@ == self@.live_fields(key@)[i].1
                },
                Err(e) => e == StoreError::StoreUnavailable && !self@.available,
            },
    {
        if !self.available {
            return Err(StoreError::StoreUnavailable);
        }
        let ghost kv = key@;
        match vfind_index(&self.buckets, &key) {
            Some(i) => {
                proof {
                    assert(self@.buckets[i as int].0 == kv);
                    assert forall|j: int| 0 <= j < i implies self@.buckets[j].0 != kv by {
                        assert(self@.buckets[j].0 == self.buckets@[j].0@);
                    }
                    lemma_afind_at(self@.buckets, kv, i as int);
                    assert(self@.bucket(kv) == Some(self@.buckets[i as int].1));
                    assert(self@.buckets[i as int].1 == bucket_view(self.buckets@[i as int].1));
                }
                let live = match self.buckets[i].1.deadline {
                    Some(d) => d > self.now,
                    None => true,
                };
                if !live {
                    proof {
                        assert(self@.live_fields(kv).len() == 0);
                    }
                    return Ok(Vec::new());
                }
                let ghost fs = self@.live_fields(kv);
                let fields = &self.buckets[i].1.fields;
                proof {
                    assert forall|l: int| 0 <= l < fs.len() implies fs[l] == (
                        fields@[l].0@,
                        fields@[l].1@,
                    ) by {}
                }
                let mut rs: Vec<(String, T)> = Vec::new();
                let mut j: usize = 0;
                while j < fields.len()
                    invariant
                        j <= fields@.len(),
                        fs.len() == fields@.len(),
                        forall|l: int|
                            0 <= l < fs.len() ==> fs[l] == (fields@[l].0@, fields@[l].1@),
                        rs@.len() == j,
                        forall|l: int|
                            0 <= l < j ==> (#[trigger] rs@[l]).0@ == fs[l].0 && rs@[l].1@
                                == fs[l].1,
                    decreases fields@.len() - j,
                {
                    rs.push((fields[j].0.clone(), fields[j].1.dup()));
                    j += 1;
                }
                Ok(rs)
            },
            None => {
                proof {
                    assert forall|j: int| 0 <= j < self@.buckets.len() implies self@.buckets[j].0
                        != kv by {
                        assert(self@.buckets[j].0 == self.buckets@[j].0@);
                    }
                    lemma_afind_none(self@.buckets, kv);
                    assert(self@.live_fields(kv).len() == 0);
                }
                Ok(Vec::new())
            },
        }
    }

    /// Deletes field `field` of bucket `key`; deleting an absent field
    /// succeeds and changes nothing.
    pub fn hdel(&mut self, key: String, field: String) -> (r: Result<(), StoreError>)
        requires
            old(self)@.wf(),
        ensures
            final(self)@.wf(),
            match r {
                Ok(()) => old(self)@.available && final(self)@ == old(self)@.hdel(key@, field@),
                Err(e) => e == StoreError::StoreUnavailable && !old(self)@.available && final(self)@
                    == old(self)@,
            },
    {
        if !self.available {
            return Err(StoreError::StoreUnavailable);
        }
        let ghost pre = self@;
        let ghost kv = key@;
        let ghost fv = field@;
        match vfind_index(&self.buckets, &key) {
            Some(i) => {
                proof {
                    assert(pre.buckets[i as int].0 == kv);
                    assert forall|j: int| 0 <= j < i implies pre.buckets[j].0 != kv by {
                        assert(pre.buckets[j].0 == self.buckets@[j].0@);
                    }
                    lemma_afind_at(pre.buckets, kv, i as int);
                    assert(pre.bucket(kv) == Some(pre.buckets[i as int].1));
                    assert(pre.buckets[i as int].1 == bucket_view(self.buckets@[i as int].1));
                }
                let live = match self.buckets[i].1.deadline {
                    Some(d) => d > self.now,
                    None => true,
                };
                if !live {
                    proof {
                        assert(self@ == pre.hdel(kv, fv));
                    }
                    return Ok(());
                }
                let mut pair = self.buckets.remove(i);
                let ghost oldfields = bucket_view(pair.1).fields;
                match vfind_index(&pair.1.fields, &field) {
                    Some(j) => {
                        proof {
                            assert(oldfields[j as int].0 == fv);
                            assert forall|l: int| 0 <= l < j implies oldfields[l].0 != fv by {
                                assert(oldfields[l].0 == pair.1.fields@[l].0@);
                            }
                            lemma_aremove_at(oldfields, fv, j as int);
                        }
                        pair.1.fields.remove(j);
                    },
                    None => {
                        proof {
                            assert forall|l: int| 0 <= l < oldfields.len() implies oldfields[l].0
                                != fv by {
                                assert(oldfields[l].0 == pair.1.fields@[l].0@);
                            }
                            lemma_aremove_absent(oldfields, fv);
                        }
                    },
                }
                proof {
                    assert(bucket_view(pair.1).fields =~= aremove(oldfields, fv));
                }
                let ghost nb = BucketV { fields: aremove(oldfields, fv), deadline: pre.bucket(kv)->Some_0.deadline };
                proof {
                    assert(bucket_view(pair.1) == nb);
                }
                self.buckets.insert(i, pair);
                proof {
                    lemma_aput_update(pre.buckets, kv, nb, i as int);
                    assert(self@.buckets =~= pre.buckets.update(i as int, (kv, nb)));
                    assert(self@ == pre.hdel(kv, fv));
                    lemma_store_hdel_wf(pre, kv, fv);
                }
                Ok(())
            },
            None => {
                proof {
                    assert forall|j: int| 0 <= j < pre.buckets.len() implies pre.buckets[j].0
                        != kv by {
                        assert(pre.buckets[j].0 == self.buckets@[j].0@);
                    }
                    lemma_afind_none(pre.buckets, kv);
                    assert(self@ == pre.hdel(kv, fv));
                }
                Ok(())
            },
        }
    }

    /// Deletes bucket `key` and all its fields; deleting an absent bucket
    /// succeeds and changes nothing.
    pub fn del(&mut self, key: String) -> (r: Result<(), StoreError>)
        requires
            old(self)@.wf(),
        ensures
            final(self)@.wf(),
            match r {
                Ok(()) => old(self)@.available && final(self)@ == old(self)@.del(key@),
                Err(e) => e == StoreError::StoreUnavailable && !old(self)@.available && final(self)@
                    == old(self)@,
            },
    {
        if !self.available {
            return Err(StoreError::StoreUnavailable);
        }
        let ghost pre = self@;
        let ghost kv = key@;
        match vfind_index(&self.buckets, &key) {
            Some(i) => {
                proof {
                    assert(pre.buckets[i as int].0 == kv);
                    assert forall|j: int| 0 <= j < i implies pre.buckets[j].0 != kv by {
                        assert(pre.buckets[j].0 == self.buckets@[j].0@);
                    }
                    lemma_aremove_at(pre.buckets, kv, i as int);
                }
                self.buckets.remove(i);
                proof {
                    assert(self@.buckets =~= pre.buckets.remove(i as int));
                    assert(self@ == pre.del(kv));
                    lemma_store_del_wf(pre, kv);
                }
            },
            None => {
                proof {
                    assert forall|j: int| 0 <= j < pre.buckets.len() implies pre.buckets[j].0
                        != kv by {
                        assert(pre.buckets[j].0 == self.buckets@[j].0@);
                    }
                    lemma_aremove_absent(pre.buckets, kv);
                    assert(self@ == pre.del(kv));
                }
            },
        }
        Ok(())
    }

    /// Sets the expiry deadline of bucket `key` on the logical clock;
    /// setting expiry on an absent or already-expired bucket succeeds and
    /// changes nothing, as the underlying store treats it as a no-op.
    pub fn expire(&mut self, key: String, deadline: u64) -> (r: Result<(), StoreError>)
        requires
            old(self)@.wf(),
        ensures
            final(self)@.wf(),
            match r {
                Ok(()) => old(self)@.available && final(self)@ == old(self)@.expire(key@, deadline),
                Err(e) => e == StoreError::StoreUnavailable && !old(self)@.available && final(self)@
                    == old(self)@,
            },
    {
        if !self.available {
            return Err(StoreError::StoreUnavailable);
        }
        let ghost pre = self@;
        let ghost kv = key@;
        match vfind_index(&self.buckets, &key) {
            Some(i) => {
                proof {
                    assert(pre.buckets[i as int].0 == kv);
                    assert forall|j: int| 0 <= j < i implies pre.buckets[j].0 != kv by {
                        assert(pre.buckets[j].0 == self.buckets@[j].0@);
                    }
                    lemma_afind_at(pre.buckets, kv, i as int);
                    assert(pre.bucket(kv) == Some(pre.buckets[i as int].1));
                    assert(pre.buckets[i as int].1 == bucket_view(self.buckets@[i as int].1));
                }
                let live = match self.buckets[i].1.deadline {
                    Some(d) => d > self.now,
                    None => true,
                };
                if !live {
                    proof {
                        assert(self@ == pre.expire(kv, deadline));
                    }
                    return Ok(());
                }
                let mut pair = self.buckets.remove(i);
                pair.1.deadline = Some(deadline);
                let ghost nb = BucketV { fields: pre.bucket(kv)->Some_0.fields, deadline: Some(deadline) };
                proof {
                    assert(bucket_view(pair.1).fields =~= nb.fields);
                    assert(bucket_view(pair.1) == nb);
                }
                self.buckets.insert(i, pair);
                proof {
                    lemma_aput_update(pre.buckets, kv, nb, i as int);
                    assert(self@.buckets =~= pre.buckets.update(i as int, (kv, nb)));
                    assert(self@ == pre.expire(kv, deadline));
                    lemma_store_expire_wf(pre, kv, deadline);
                }
                Ok(())
            },
            None => {
                proof {
                    assert forall|j: int| 0 <= j < pre.buckets.len() implies pre.buckets[j].0
                        != kv by {
                        assert(pre.buckets[j].0 == self.buckets@[j].0@);
                    }
                    lemma_afind_none(pre.buckets, kv);
                    assert(self@ == pre.expire(kv, deadline));
                }
                Ok(())
            },
        }
    }

    /// Advances the logical clock by `d` time units, saturating at the
    /// clock's maximum.
    pub fn advance(&mut self, d: u64)
        requires
            old(self)@.wf(),
        ensures
            final(self)@.wf(),
            final(self)@ == old(self)@.tick(d),
    {
        let ghost pre = self@;
        if d > u64::MAX - self.now {
            self.now = u64::MAX;
        } else {
            self.now = self.now + d;
        }
        proof {
            assert(self@ == pre.tick(d));
        }
    }

    /// Sets whether the store endpoint is reachable.
    pub fn set_available(&mut self, a: bool)
        requires
            old(self)@.wf(),
        ensures
            final(self)@.wf(),
            final(self)@ == old(self)@.with_available(a),
    {
        let ghost pre = self@;
        self.available = a;
        proof {
            assert(self@ == pre.with_available(a));
        }
    }
}

/// The binding `afind` returns occurs in the table.
pub proof fn lemma_afind_members<V>(s: Seq<(Seq<char>, V)>, k: Seq<char>)
    ensures
        afind(s, k) is Some ==> exists|i: int|
            0 <= i < s.len() && s[i] == (k, afind(s, k)->Some_0),
    decreases s.len(),
{
    if s.len() > 0 && s[0].0 != k {
        lemma_afind_members(s.drop_first(), k);
        if afind(s, k) is Some {
            let i = choose|i: int|
                0 <= i < s.drop_first().len() && s.drop_first()[i] == (
                    k,
                    afind(s.drop_first(), k)->Some_0,
                );
            assert(s[i + 1] == (k, afind(s, k)->Some_0));
        }
    }
}

/// Every entry of an upserted table is the new binding or an entry the
/// table already had.
pub proof fn lemma_aput_members<V>(s: Seq<(Seq<char>, V)>, k: Seq<char>, v: V)
    ensures
        forall|i: int|
            0 <= i < aput(s, k, v).len() ==> (#[trigger] aput(s, k, v)[i]) == (k, v) || exists|
                j: int,
            | 0 <= j < s.len() && s[j] == aput(s, k, v)[i],
    decreases s.len(),
{
    if s.len() == 0 {
    } else if s[0].0 == k {
        assert forall|i: int| 0 <= i < aput(s, k, v).len() implies (#[trigger] aput(s, k, v)[i])
            == (k, v) || exists|j: int| 0 <= j < s.len() && s[j] == aput(s, k, v)[i] by {
            if i > 0 {
                assert(s[i] == aput(s, k, v)[i]);
            }
        }
    } else {
        lemma_aput_members(s.drop_first(), k, v);
        let t = seq![s[0]] + aput(s.drop_first(), k, v);
        assert forall|i: int| 0 <= i < t.len() implies (#[trigger] t[i]) == (k, v) || exists|j: int|
            0 <= j < s.len() && s[j] == t[i] by {
            if i == 0 {
                assert(s[0] == t[0]);
            } else {
                assert(t[i] == aput(s.drop_first(), k, v)[i - 1]);
                if t[i] != (k, v) {
                    let j = choose|j: int|
                        0 <= j < s.drop_first().len() && s.drop_first()[j] == aput(
                            s.drop_first(),
                            k,
                            v,
                        )[i - 1];
                    assert(s[j + 1] == t[i]);
                }
            }
        }
    }
}

/// Every entry of a table after removal is an entry the table already had.
pub proof fn lemma_aremove_members<V>(s: Seq<(Seq<char>, V)>, k: Seq<char>)
    ensures
        forall|i: int|
            0 <= i < aremove(s, k).len() ==> exists|j: int|
                0 <= j < s.len() && s[j] == #[trigger] aremove(s, k)[i],
    decreases s.len(),
{
    if s.len() == 0 {
    } else if s[0].0 == k {
        assert forall|i: int| 0 <= i < aremove(s, k).len() implies exists|j: int|
            0 <= j < s.len() && s[j] == #[trigger] aremove(s, k)[i] by {
            assert(s[i + 1] == aremove(s, k)[i]);
        }
    } else {
        lemma_aremove_members(s.drop_first(), k);
        let t = seq![s[0]] + aremove(s.drop_first(), k);
        assert forall|i: int| 0 <= i < t.len() implies exists|j: int|
            0 <= j < s.len() && s[j] == #[trigger] t[i] by {
            if i == 0 {
                assert(s[0] == t[0]);
            } else {
                assert(t[i] == aremove(s.drop_first(), k)[i - 1]);
                let j = choose|j: int|
                    0 <= j < s.drop_first().len() && s.drop_first()[j] == aremove(
                        s.drop_first(),
                        k,
                    )[i - 1];
                assert(s[j + 1] == t[i]);
            }
        }
    }
}

/// A write preserves well-formedness.
pub proof fn lemma_store_put_wf<V>(s: StoreV<V>, b: Seq<char>, f: Seq<char>, v: V)
    requires
        s.wf(),
    ensures
        s.put(b, f, v).wf(),
{
    if s.bucket_live(b) {
        lemma_bucket_unique(s, b);
    }
    lemma_aput_unique(s.live_fields(b), f, v);
    let nb = BucketV { fields: aput(s.live_fields(b), f, v), deadline: s.kept_deadline(b) };
    let t = s.put(b, f, v);
    lemma_aput_unique(s.buckets, b, nb);
    lemma_aput_members(s.buckets, b, nb);
    assert forall|i: int| 0 <= i < t.buckets.len() implies akeys_unique(
        #[trigger] t.buckets[i].1.fields,
    ) by {
        if t.buckets[i] != (b, nb) {
            let j = choose|j: int| 0 <= j < s.buckets.len() && s.buckets[j] == t.buckets[i];
            assert(akeys_unique(s.buckets[j].1.fields));
        }
    }
}

/// A live bucket of a well-formed store has unique field keys.
pub proof fn lemma_bucket_unique<V>(s: StoreV<V>, b: Seq<char>)
    requires
        s.wf(),
        s.bucket(b) is Some,
    ensures
        akeys_unique(s.bucket(b)->Some_0.fields),
{
    lemma_afind_members(s.buckets, b);
    let i = choose|i: int|
        0 <= i < s.buckets.len() && s.buckets[i] == (b, s.bucket(b)->Some_0);
    assert(akeys_unique(s.buckets[i].1.fields));
}

/// A field deletion preserves well-formedness.
pub proof fn lemma_store_hdel_wf<V>(s: StoreV<V>, b: Seq<char>, f: Seq<char>)
    requires
        s.wf(),
    ensures
        s.hdel(b, f).wf(),
{
    if s.bucket_live(b) {
        let bk = s.bucket(b)->Some_0;
        lemma_bucket_unique(s, b);
        lemma_aremove_find(bk.fields, f, f);
        let nb = BucketV { fields: aremove(bk.fields, f), deadline: bk.deadline };
        let t = s.hdel(b, f);
        lemma_aput_unique(s.buckets, b, nb);
        lemma_aput_members(s.buckets, b, nb);
        assert forall|i: int| 0 <= i < t.buckets.len() implies akeys_unique(
            #[trigger] t.buckets[i].1.fields,
        ) by {
            if t.buckets[i] != (b, nb) {
                let j = choose|j: int| 0 <= j < s.buckets.len() && s.buckets[j] == t.buckets[i];
                assert(akeys_unique(s.buckets[j].1.fields));
            }
        }
    }
}

/// A bucket deletion preserves well-formedness.
pub proof fn lemma_store_del_wf<V>(s: StoreV<V>, b: Seq<char>)
    requires
        s.wf(),
    ensures
        s.del(b).wf(),
{
    lemma_aremove_find(s.buckets, b, b);
    lemma_aremove_members(s.buckets, b);
    let t = s.del(b);
    assert forall|i: int| 0 <= i < t.buckets.len() implies akeys_unique(
        #[trigger] t.buckets[i].1.fields,
    ) by {
        let j = choose|j: int| 0 <= j < s.buckets.len() && s.buckets[j] == t.buckets[i];
        assert(akeys_unique(s.buckets[j].1.fields));
    }
}

/// Setting a deadline preserves well-formedness.
pub proof fn lemma_store_expire_wf<V>(s: StoreV<V>, b: Seq<char>, deadline: u64)
    requires
        s.wf(),
    ensures
        s.expire(b, deadline).wf(),
{
    if s.bucket_live(b) {
        let bk = s.bucket(b)->Some_0;
        lemma_bucket_unique(s, b);
        let nb = BucketV { fields: bk.fields, deadline: Some(deadline) };
        let t = s.expire(b, deadline);
        lemma_aput_unique(s.buckets, b, nb);
        lemma_aput_members(s.buckets, b, nb);
        assert forall|i: int| 0 <= i < t.buckets.len() implies akeys_unique(
            #[trigger] t.buckets[i].1.fields,
        ) by {
            if t.buckets[i] != (b, nb) {
                let j = choose|j: int| 0 <= j < s.buckets.len() && s.buckets[j] == t.buckets[i];
                assert(akeys_unique(s.buckets[j].1.fields));
            }
        }
    }
}

} // verus!
