//! The ordered queue primitive: named sorted sets of peer identifiers.
//!
//! Each queue maps members (peer numeric identifiers) to unsigned scores,
//! one binding per member.  Ranked enumeration sorts by score ascending as
//! an explicit step; the order of members with equal scores is left to the
//! table order and must not be relied upon.

use crate::assoc::afind;
use crate::assoc::akeys_unique;
use crate::assoc::aput;
use crate::assoc::aremove;
use crate::assoc::lemma_afind_at;
use crate::assoc::lemma_afind_none;
use crate::assoc::lemma_aput_push;
use crate::assoc::lemma_aput_unique;
use crate::assoc::lemma_aput_update;
use crate::assoc::lemma_aremove_absent;
use crate::assoc::lemma_aremove_at;
use crate::assoc::lemma_aremove_find;
use crate::assoc::vfind_index;
use crate::errors::StoreError;
use vstd::pervasive::VecAdditionalExecFns;
use vstd::prelude::*;

verus! {

broadcast use vstd::seq_lib::group_to_multiset_ensures;

/// Scores never decrease along the sequence.
pub open spec fn sorted_by_score(s: Seq<(u32, u32)>) -> bool {
    forall|i: int, j: int| 0 <= i < j < s.len() ==> s[i].1 <= s[j].1
}

/// Abstract state of the queue store: queue key → member→score table,
/// plus the availability flag.
pub ghost struct ZStoreV {
    pub sets: Seq<(Seq<char>, Seq<(u32, u32)>)>,
    pub available: bool,
}

impl ZStoreV {
    /// Keys are unique at both levels.
    pub open spec fn wf(self) -> bool {
        &&& akeys_unique(self.sets)
        &&& forall|i: int|
            0 <= i < self.sets.len() ==> akeys_unique(#[trigger] self.sets[i].1)
    }

    /// The member→score table of queue `k`; empty if the queue is absent.
    pub open spec fn entries(self, k: Seq<char>) -> Seq<(u32, u32)> {
        match afind(self.sets, k) {
            Some(e) => e,
            None => Seq::empty(),
        }
    }

    /// The score of `member` in queue `k`.
    pub open spec fn score(self, k: Seq<char>, member: u32) -> Option<u32> {
        afind(self.entries(k), member)
    }

    /// Inserts or re-scores `member` with `score`: upsert, never a
    /// duplicate insert.
    pub open spec fn zadd(self, k: Seq<char>, member: u32, score: u32) -> ZStoreV {
        ZStoreV { sets: aput(self.sets, k, aput(self.entries(k), member, score)), ..self }
    }

    /// Removes `member`; an absent member or queue is left as it is.
    pub open spec fn zrem(self, k: Seq<char>, member: u32) -> ZStoreV {
        if afind(self.sets, k) is Some {
            ZStoreV { sets: aput(self.sets, k, aremove(self.entries(k), member)), ..self }
        } else {
            self
        }
    }

    /// Re-scores every member of queue `k` to `score`, keeping the member
    /// set; an absent queue is left as it is.
    pub open spec fn zsetall(self, k: Seq<char>, score: u32) -> ZStoreV {
        if afind(self.sets, k) is Some {
            ZStoreV {
                sets: aput(
                    self.sets,
                    k,
                    Seq::new(self.entries(k).len(), |i: int| (self.entries(k)[i].0, score)),
                ),
                ..self
            }
        } else {
            self
        }
    }

    /// Sets the availability flag.
    pub open spec fn with_available(self, a: bool) -> ZStoreV {
        ZStoreV { available: a, ..self }
    }
}

/// The queue store.
pub struct ZStore {
    sets: Vec<(String, Vec<(u32, u32)>)>,
    available: bool,
}

impl View for ZStore {
    type V = ZStoreV;

    closed spec fn view(&self) -> ZStoreV {
        ZStoreV {
            sets: self.sets@.map_values(|p: (String, Vec<(u32, u32)>)| (p.0@, p.1@)),
            available: self.available,
        }
    }
}

/// Index of the first binding of `member` in one queue's table.
fn zfind_index(v: &Vec<(u32, u32)>, member: u32) -> (r: Option<usize>)
    ensures
        match r {
            Some(i) => i < v@.len() && v@[i as int].0 == member && forall|j: int|
                0 <= j < i ==> v@[j].0 != member,
            None => forall|j: int| 0 <= j < v@.len() ==> v@[j].0 != member,
        },
{
    let mut i: usize = 0;
    while i < v.len()
        invariant
            i <= v@.len(),
            forall|j: int| 0 <= j < i ==> v@[j].0 != member,
        decreases v@.len() - i,
    {
        if v[i].0 == member {
            return Some(i);
        }
        i += 1;
    }
    None
}

impl ZStore {
    /// A fresh, empty, reachable queue store.
    pub fn new() -> (s: Self)
        ensures
            s@.sets == Seq::<(Seq<char>, Seq<(u32, u32)>)>::empty(),
            s@.available,
            s@.wf(),
    {
        let s = ZStore { sets: Vec::new(), available: true };
        proof {
            assert(s@.sets =~= Seq::<(Seq<char>, Seq<(u32, u32)>)>::empty());
        }
        s
    }

    /// Inserts or re-scores member `value` with `score` in queue `key`.
    pub fn zadd(&mut self, key: String, score: u32, value: u32) -> (r: Result<(), StoreError>)
        requires
            old(self)@.wf(),
        ensures
            final(self)@.wf(),
            match r {
                Ok(()) => old(self)@.available && final(self)@ == old(self)@.zadd(
                    key@,
                    value,
                    score,
                ),
                Err(e) => e == StoreError::StoreUnavailable && !old(self)@.available && final(self)@
                    == old(self)@,
            },
    {
        if !self.available {
            return Err(StoreError::StoreUnavailable);
        }
        let ghost pre = self@;
        let ghost kv = key@;
        match vfind_index(&self.sets, &key) {
            Some(i) => {
                proof {
                    assert(pre.sets[i as int].0 == kv);
                    assert forall|j: int| 0 <= j < i implies pre.sets[j].0 != kv by {
                        assert(pre.sets[j].0 == self.sets@[j].0@);
                    }
                    lemma_afind_at(pre.sets, kv, i as int);
                    assert(pre.entries(kv) == pre.sets[i as int].1);
                }
                let mut pair = self.sets.remove(i);
                let ghost olde = pair.1@;
                match zfind_index(&pair.1, value) {
                    Some(j) => {
                        proof {
                            lemma_aput_update(olde, value, score, j as int);
                        }
                        pair.1.set(j, (value, score));
                    },
                    None => {
                        proof {
                            lemma_aput_push(olde, value, score);
                        }
                        pair.1.push((value, score));
                    },
                }
                proof {
                    assert(pair.1@ =~= aput(olde, value, score));
                }
                let ghost ne = aput(olde, value, score);
                self.sets.insert(i, pair);
                proof {
                    lemma_aput_update(pre.sets, kv, ne, i as int);
                    assert(self@.sets =~= pre.sets.update(i as int, (kv, ne)));
                    assert(self@ == pre.zadd(kv, value, score));
                    assert(akeys_unique(pre.entries(kv)));
                    lemma_aput_unique(pre.entries(kv), value, score);
                    lemma_zstore_set_wf(pre, kv, ne);
                }
            },
            None => {
                proof {
                    assert forall|j: int| 0 <= j < pre.sets.len() implies pre.sets[j].0 != kv by {
                        assert(pre.sets[j].0 == self.sets@[j].0@);
                    }
                    lemma_afind_none(pre.sets, kv);
                }
                let mut entries: Vec<(u32, u32)> = Vec::new();
                entries.push((value, score));
                proof {
                    assert(entries@ =~= seq![(value, score)]);
                    assert(aput(pre.entries(kv), value, score) == seq![(value, score)]);
                    lemma_aput_push(pre.sets, kv, seq![(value, score)]);
                }
                self.sets.push((key, entries));
                proof {
                    assert(self@.sets =~= pre.sets.push((kv, seq![(value, score)])));
                    assert(self@ == pre.zadd(kv, value, score));
                    lemma_zstore_set_wf(pre, kv, seq![(value, score)]);
                }
            },
        }
        Ok(())
    }

    /// Removes member `value` from queue `key`; removing an absent member
    /// succeeds and changes nothing.
    pub fn zrem(&mut self, key: String, value: u32) -> (r: Result<(), StoreError>)
        requires
            old(self)@.wf(),
        ensures
            final(self)@.wf(),
            match r {
                Ok(()) => old(self)@.available && final(self)@ == old(self)@.zrem(key@, value),
                Err(e) => e == StoreError::StoreUnavailable && !old(self)@.available && final(self)@
                    == old(self)@,
            },
    {
        if !self.available {
            return Err(StoreError::StoreUnavailable);
        }
        let ghost pre = self@;
        let ghost kv = key@;
        match vfind_index(&self.sets, &key) {
            Some(i) => {
                proof {
                    assert(pre.sets[i as int].0 == kv);
                    assert forall|j: int| 0 <= j < i implies pre.sets[j].0 != kv by {
                        assert(pre.sets[j].0 == self.sets@[j].0@);
                    }
                    lemma_afind_at(pre.sets, kv, i as int);
                    assert(pre.entries(kv) == pre.sets[i as int].1);
                }
                let mut pair = self.sets.remove(i);
                let ghost olde = pair.1@;
                match zfind_index(&pair.1, value) {
                    Some(j) => {
                        proof {
                            lemma_aremove_at(olde, value, j as int);
                        }
                        pair.1.remove(j);
                    },
                    None => {
                        proof {
                            lemma_aremove_absent(olde, value);
                        }
                    },
                }
                proof {
                    assert(pair.1@ =~= aremove(olde, value));
                }
                let ghost ne = aremove(olde, value);
                self.sets.insert(i, pair);
                proof {
                    lemma_aput_update(pre.sets, kv, ne, i as int);
                    assert(self@.sets =~= pre.sets.update(i as int, (kv, ne)));
                    assert(self@ == pre.zrem(kv, value));
                    assert(akeys_unique(pre.entries(kv)));
                    lemma_aremove_find(pre.entries(kv), value, value);
                    lemma_zstore_set_wf(pre, kv, ne);
                }
            },
            None => {
                proof {
                    assert forall|j: int| 0 <= j < pre.sets.len() implies pre.sets[j].0 != kv by {
                        assert(pre.sets[j].0 == self.sets@[j].0@);
                    }
                    lemma_afind_none(pre.sets, kv);
                    assert(self@ == pre.zrem(kv, value));
                }
            },
        }
        Ok(())
    }

    /// Re-scores every member of queue `key` to `score`.  Not atomic at the
    /// real store: callers serialize re-scoring per queue.
    pub fn zsetall(&mut self, key: String, score: u32) -> (r: Result<(), StoreError>)
        requires
            old(self)@.wf(),
        ensures
            final(self)@.wf(),
            match r {
                Ok(()) => old(self)@.available && final(self)@ == old(self)@.zsetall(key@, score),
                Err(e) => e == StoreError::StoreUnavailable && !old(self)@.available && final(self)@
                    == old(self)@,
            },
    {
        if !self.available {
            return Err(StoreError::StoreUnavailable);
        }
        let ghost pre = self@;
        let ghost kv = key@;
        match vfind_index(&self.sets, &key) {
            Some(i) => {
                proof {
                    assert(pre.sets[i as int].0 == kv);
                    assert forall|j: int| 0 <= j < i implies pre.sets[j].0 != kv by {
                        assert(pre.sets[j].0 == self.sets@[j].0@);
                    }
                    lemma_afind_at(pre.sets, kv, i as int);
                    assert(pre.entries(kv) == pre.sets[i as int].1);
                }
                let mut pair = self.sets.remove(i);
                let ghost olde = pair.1@;
                let mut j: usize = 0;
                while j < pair.1.len()
                    invariant
                        j <= pair.1@.len(),
                        pair.0@ == kv,
                        pair.1@.len() == olde.len(),
                        forall|l: int| 0 <= l < j ==> pair.1@[l] == (olde[l].0, score),
                        forall|l: int| j <= l < olde.len() ==> pair.1@[l] == olde[l],
                    decreases pair.1@.len() - j,
                {
                    let m = pair.1[j].0;
                    pair.1.set(j, (m, score));
                    j += 1;
                }
                let ghost ne = Seq::new(olde.len(), |l: int| (olde[l].0, score));
                proof {
                    assert(pair.1@ =~= ne);
                }
                self.sets.insert(i, pair);
                proof {
                    lemma_aput_update(pre.sets, kv, ne, i as int);
                    assert(self@.sets =~= pre.sets.update(i as int, (kv, ne)));
                    assert(ne =~= Seq::new(
                        pre.entries(kv).len(),
                        |l: int| (pre.entries(kv)[l].0, score),
                    ));
                    assert(self@ == pre.zsetall(kv, score));
                    assert(akeys_unique(pre.entries(kv)));
                    assert forall|a: int, b: int| 0 <= a < b < ne.len() implies ne[a].0
                        != ne[b].0 by {
                        assert(pre.entries(kv)[a].0 != pre.entries(kv)[b].0);
                    }
                    lemma_zstore_set_wf(pre, kv, ne);
                }
            },
            None => {
                proof {
                    assert forall|j: int| 0 <= j < pre.sets.len() implies pre.sets[j].0 != kv by {
                        assert(pre.sets[j].0 == self.sets@[j].0@);
                    }
                    lemma_afind_none(pre.sets, kv);
                    assert(self@ == pre.zsetall(kv, score));
                }
            },
        }
        Ok(())
    }

    /// Enumerates queue `key` sorted ascending by score.  The sort is an
    /// explicit step: the result carries exactly the queue's bindings, in
    /// score order, whatever order the table holds them in.
    pub fn zgetall(&self, key: String) -> (r: Result<Vec<(u32, u32)>, StoreError>)
        requires
            self@.wf(),
        ensures
            match r {
                Ok(rs) => {
                    &&& self@.available
                    &&& sorted_by_score(rs@)
                    &&& rs@.to_multiset() == self@.entries(key@).to_multiset()
                },
                Err(e) => e == StoreError::StoreUnavailable && !self@.available,
            },
    {
        if !self.available {
            return Err(StoreError::StoreUnavailable);
        }
        let ghost kv = key@;
        match vfind_index(&self.sets, &key) {
            Some(i) => {
                proof {
                    assert(self@.sets[i as int].0 == kv);
                    assert forall|j: int| 0 <= j < i implies self@.sets[j].0 != kv by {
                        assert(self@.sets[j].0 == self.sets@[j].0@);
                    }
                    lemma_afind_at(self@.sets, kv, i as int);
                    assert(self@.entries(kv) == self.sets@[i as int].1@);
                }
                let mut work: Vec<(u32, u32)> = Vec::new();
                let src = &self.sets[i].1;
                let mut j: usize = 0;
                while j < src.len()
                    invariant
                        j <= src@.len(),
                        work@ =~= src@.take(j as int),
                    decreases src@.len() - j,
                {
                    work.push(src[j]);
                    j += 1;
                    proof {
                        assert(work@ =~= src@.take(j as int));
                    }
                }
                proof {
                    assert(work@ =~= src@);
                }
                Ok(sort_entries(work))
            },
            None => {
                proof {
                    assert forall|j: int| 0 <= j < self@.sets.len() implies self@.sets[j].0
                        != kv by {
                        assert(self@.sets[j].0 == self.sets@[j].0@);
                    }
                    lemma_afind_none(self@.sets, kv);
                    assert(Seq::<(u32, u32)>::empty().to_multiset() =~= self@.entries(
                        kv,
                    ).to_multiset());
                }
                let rs: Vec<(u32, u32)> = Vec::new();
                proof {
                    assert(rs@ =~= Seq::<(u32, u32)>::empty());
                }
                Ok(rs)
            },
        }
    }

    /// Sets whether the store endpoint is reachable.
    pub fn set_available(&mut self, a: bool)
        requires
            old(self)@.wf(),
        ensures
            final(self)@.wf(),
            final(self)@ == old(self)@.with_available(a),
    {
        let ghost pre = self@;
        self.available = a;
        proof {
            assert(self@ == pre.with_available(a));
        }
    }
}

/// Sorts the given bindings ascending by score, by repeatedly moving a
/// binding of minimal score; the result is a permutation of the input.
fn sort_entries(input: Vec<(u32, u32)>) -> (out: Vec<(u32, u32)>)
    ensures
        sorted_by_score(out@),
        out@.to_multiset() == input@.to_multiset(),
{
    let mut work = input;
    let ghost src = work@;
    let mut out: Vec<(u32, u32)> = Vec::new();
    proof {
        assert(out@ =~= Seq::<(u32, u32)>::empty());
        assert(out@.to_multiset().add(work@.to_multiset()) =~= src.to_multiset());
    }
    while work.len() > 0
        invariant
            out@.to_multiset().add(work@.to_multiset()) == src.to_multiset(),
            sorted_by_score(out@),
            forall|a: int, b: int|
                0 <= a < out@.len() && 0 <= b < work@.len() ==> out@[a].1 <= work@[b].1,
        decreases work@.len(),
    {
        let mut jmin: usize = 0;
        let mut j: usize = 1;
        while j < work.len()
            invariant
                jmin < j <= work@.len(),
                work@.len() > 0,
                forall|l: int| 0 <= l < j ==> work@[jmin as int].1 <= work@[l].1,
            decreases work@.len() - j,
        {
            if work[j].1 < work[jmin].1 {
                jmin = j;
            }
            j += 1;
        }
        let ghost prework = work@;
        let ghost preout = out@;
        let x = work.remove(jmin);
        out.push(x);
        proof {
            assert(prework.remove(jmin as int).to_multiset() =~= prework.to_multiset().remove(x));
            assert(preout.push(x).to_multiset() =~= preout.to_multiset().insert(x));
            assert(prework.contains(x));
            assert(prework.to_multiset().count(x) > 0);
            assert(out@.to_multiset().add(work@.to_multiset()) =~= src.to_multiset());
            assert forall|a: int, b: int|
                0 <= a < out@.len() && 0 <= b < work@.len() implies out@[a].1 <= work@[b].1 by {
                if a < preout.len() {
                    assert(preout[a].1 <= prework[if b < jmin { b } else { b + 1 }].1);
                } else {
                    assert(out@[a] == x);
                    assert(work@[b] == prework[if b < jmin { b } else { b + 1 }]);
                }
            }
            assert(sorted_by_score(out@));
        }
    }
    proof {
        assert(work@.len() == 0);
        assert(work@ =~= Seq::<(u32, u32)>::empty());
        assert(out@.to_multiset().add(work@.to_multiset()) =~= out@.to_multiset());
    }
    out
}

/// Replacing one queue's table with one of unique members preserves
/// well-formedness.
pub proof fn lemma_zstore_set_wf(s: ZStoreV, k: Seq<char>, e: Seq<(u32, u32)>)
    requires
        s.wf(),
        akeys_unique(e),
    ensures
        (ZStoreV { sets: aput(s.sets, k, e), ..s }).wf(),
{
    lemma_aput_unique(s.sets, k, e);
    crate::store::lemma_aput_members(s.sets, k, e);
    let t = ZStoreV { sets: aput(s.sets, k, e), ..s };
    assert forall|i: int| 0 <= i < t.sets.len() implies akeys_unique(#[trigger] t.sets[i].1) by {
        if t.sets[i] != (k, e) {
            let j = choose|j: int| 0 <= j < s.sets.len() && s.sets[j] == t.sets[i];
            assert(akeys_unique(s.sets[j].1));
        }
    }
}

} // verus!
