//! Association sequences: the ghost form of the bucket and field tables.
//!
//! A table is a sequence of `(key, value)` pairs.  The spec functions here
//! define lookup, upsert and removal on such sequences, and the lemmas
//! relate them to the positional updates that the executable tables
//! perform.

use vstd::prelude::*;

verus! {

/// The value of the first binding of `k`, if any.
pub open spec fn afind<K, V>(s: Seq<(K, V)>, k: K) -> Option<V>
    decreases s.len(),
{
    if s.len() == 0 {
        None
    } else if s[0].0 == k {
        Some(s[0].1)
    } else {
        afind(s.drop_first(), k)
    }
}

/// Binds `k` to `v`: replaces the first binding of `k`, or appends a new
/// binding if `k` is unbound.
pub open spec fn aput<K, V>(s: Seq<(K, V)>, k: K, v: V) -> Seq<(K, V)>
    decreases s.len(),
{
    if s.len() == 0 {
        seq![(k, v)]
    } else if s[0].0 == k {
        seq![(k, v)] + s.drop_first()
    } else {
        seq![s[0]] + aput(s.drop_first(), k, v)
    }
}

/// Removes the first binding of `k`, if any.
pub open spec fn aremove<K, V>(s: Seq<(K, V)>, k: K) -> Seq<(K, V)>
    decreases s.len(),
{
    if s.len() == 0 {
        s
    } else if s[0].0 == k {
        s.drop_first()
    } else {
        seq![s[0]] + aremove(s.drop_first(), k)
    }
}

/// No key is bound twice.
pub open spec fn akeys_unique<K, V>(s: Seq<(K, V)>) -> bool {
    forall|i: int, j: int| 0 <= i < j < s.len() ==> s[i].0 != s[j].0
}

/// A key before the first binding of `k` never matches, so the first binding
/// is the one an in-order scan stops at.
pub proof fn lemma_afind_at<K, V>(s: Seq<(K, V)>, k: K, i: int)
    requires
        0 <= i < s.len(),
        s[i].0 == k,
        forall|j: int| 0 <= j < i ==> s[j].0 != k,
    ensures
        afind(s, k) == Some(s[i].1),
    decreases s.len(),
{
    if i > 0 {
        lemma_afind_at(s.drop_first(), k, i - 1);
    }
}

/// A key matched nowhere is unbound.
pub proof fn lemma_afind_none<K, V>(s: Seq<(K, V)>, k: K)
    requires
        forall|j: int| 0 <= j < s.len() ==> s[j].0 != k,
    ensures
        afind(s, k) is None,
    decreases s.len(),
{
    if s.len() > 0 {
        lemma_afind_none(s.drop_first(), k);
    }
}

/// Upsert of a bound key is a positional update at its first binding.
pub proof fn lemma_aput_update<K, V>(s: Seq<(K, V)>, k: K, v: V, i: int)
    requires
        0 <= i < s.len(),
        s[i].0 == k,
        forall|j: int| 0 <= j < i ==> s[j].0 != k,
    ensures
        aput(s, k, v) == s.update(i, (k, v)),
    decreases s.len(),
{
    if i == 0 {
        assert(aput(s, k, v) =~= s.update(0, (k, v)));
    } else {
        lemma_aput_update(s.drop_first(), k, v, i - 1);
        assert(aput(s, k, v) =~= s.update(i, (k, v)));
    }
}

/// Upsert of an unbound key is an append.
pub proof fn lemma_aput_push<K, V>(s: Seq<(K, V)>, k: K, v: V)
    requires
        forall|j: int| 0 <= j < s.len() ==> s[j].0 != k,
    ensures
        aput(s, k, v) == s.push((k, v)),
    decreases s.len(),
{
    if s.len() == 0 {
        assert(aput(s, k, v) =~= s.push((k, v)));
    } else {
        lemma_aput_push(s.drop_first(), k, v);
        assert(aput(s, k, v) =~= s.push((k, v)));
    }
}

/// After an upsert the key is bound to the new value and every other key is
/// bound as before.
pub proof fn lemma_aput_find<K, V>(s: Seq<(K, V)>, k: K, v: V, k2: K)
    ensures
        afind(aput(s, k, v), k) == Some(v),
        k2 != k ==> afind(aput(s, k, v), k2) == afind(s, k2),
    decreases s.len(),
{
    if s.len() == 0 {
        let t = seq![(k, v)];
        assert(aput(s, k, v) == t);
        assert(t[0] == (k, v));
        if k2 != k {
            assert(afind(t, k2) == afind(t.drop_first(), k2));
            assert(t.drop_first().len() == 0);
            assert(afind(t.drop_first(), k2) is None);
        }
    } else if s[0].0 == k {
        let t = seq![(k, v)] + s.drop_first();
        assert(aput(s, k, v) == t);
        assert(t[0] == (k, v));
        assert(t.drop_first() =~= s.drop_first());
        if k2 != k {
            assert(afind(t, k2) == afind(t.drop_first(), k2));
            assert(afind(s, k2) == afind(s.drop_first(), k2));
        }
    } else {
        lemma_aput_find(s.drop_first(), k, v, k2);
        let t = seq![s[0]] + aput(s.drop_first(), k, v);
        assert(aput(s, k, v) == t);
        assert(t[0] == s[0]);
        assert(t.drop_first() =~= aput(s.drop_first(), k, v));
        assert(afind(t, k) == afind(t.drop_first(), k));
        if k2 != k {
            if t[0].0 == k2 {
                assert(afind(t, k2) == Some(t[0].1));
                assert(afind(s, k2) == Some(s[0].1));
            } else {
                assert(afind(t, k2) == afind(t.drop_first(), k2));
                assert(afind(s, k2) == afind(s.drop_first(), k2));
            }
        }
    }
}

/// An upsert grows the table exactly when the key was unbound.
pub proof fn lemma_aput_len<K, V>(s: Seq<(K, V)>, k: K, v: V)
    ensures
        aput(s, k, v).len() == if afind(s, k) is Some {
            s.len() as int
        } else {
            s.len() + 1int
        },
    decreases s.len(),
{
    if s.len() > 0 && s[0].0 != k {
        lemma_aput_len(s.drop_first(), k, v);
    }
}

/// Upsert keeps keys unique.
pub proof fn lemma_aput_unique<K, V>(s: Seq<(K, V)>, k: K, v: V)
    requires
        akeys_unique(s),
    ensures
        akeys_unique(aput(s, k, v)),
    decreases s.len(),
{
    if s.len() == 0 {
    } else if s[0].0 == k {
        let t = seq![(k, v)] + s.drop_first();
        assert forall|i: int, j: int| 0 <= i < j < t.len() implies t[i].0 != t[j].0 by {
            assert(t[j] == s[j]);
            if i > 0 {
                assert(t[i] == s[i]);
            }
        }
    } else {
        lemma_aput_unique(s.drop_first(), k, v);
        lemma_aput_len(s.drop_first(), k, v);
        let t = seq![s[0]] + aput(s.drop_first(), k, v);
        let u = aput(s.drop_first(), k, v);
        assert forall|i: int, j: int| 0 <= i < j < t.len() implies t[i].0 != t[j].0 by {
            if i == 0 {
                assert(t[j] == u[j - 1]);
                lemma_aput_key_origin(s.drop_first(), k, v, j - 1);
            } else {
                assert(t[i] == u[i - 1]);
                assert(t[j] == u[j - 1]);
            }
        }
    }
}

/// Every key of an upserted table is either the upserted key or a key the
/// table already had.
pub proof fn lemma_aput_key_origin<K, V>(s: Seq<(K, V)>, k: K, v: V, i: int)
    requires
        0 <= i < aput(s, k, v).len(),
    ensures
        aput(s, k, v)[i].0 == k || exists|j: int|
            0 <= j < s.len() && s[j].0 == #[trigger] aput(s, k, v)[i].0,
    decreases s.len(),
{
    if s.len() == 0 {
    } else if s[0].0 == k {
        if i > 0 {
            assert(aput(s, k, v)[i] == s[i]);
        }
    } else {
        if i > 0 {
            lemma_aput_key_origin(s.drop_first(), k, v, i - 1);
            assert(aput(s, k, v)[i] == aput(s.drop_first(), k, v)[i - 1]);
            if aput(s.drop_first(), k, v)[i - 1].0 != k {
                let j = choose|j: int|
                    0 <= j < s.drop_first().len() && s.drop_first()[j].0 == aput(
                        s.drop_first(),
                        k,
                        v,
                    )[i - 1].0;
                assert(s[j + 1].0 == aput(s, k, v)[i].0);
            }
        }
    }
}

/// Removal of a bound key is a positional removal at its first binding.
pub proof fn lemma_aremove_at<K, V>(s: Seq<(K, V)>, k: K, i: int)
    requires
        0 <= i < s.len(),
        s[i].0 == k,
        forall|j: int| 0 <= j < i ==> s[j].0 != k,
    ensures
        aremove(s, k) == s.remove(i),
    decreases s.len(),
{
    if i == 0 {
        assert(aremove(s, k) =~= s.remove(0));
    } else {
        lemma_aremove_at(s.drop_first(), k, i - 1);
        assert(aremove(s, k) =~= s.remove(i));
    }
}

/// Removing an unbound key changes nothing.
pub proof fn lemma_aremove_absent<K, V>(s: Seq<(K, V)>, k: K)
    requires
        forall|j: int| 0 <= j < s.len() ==> s[j].0 != k,
    ensures
        aremove(s, k) == s,
    decreases s.len(),
{
    if s.len() > 0 {
        lemma_aremove_absent(s.drop_first(), k);
        assert(aremove(s, k) =~= s);
    }
}

/// After a removal the key is unbound and every other key is bound as
/// before; the table shrinks exactly when the key was bound.
pub proof fn lemma_aremove_find<K, V>(s: Seq<(K, V)>, k: K, k2: K)
    requires
        akeys_unique(s),
    ensures
        afind(aremove(s, k), k) is None,
        k2 != k ==> afind(aremove(s, k), k2) == afind(s, k2),
        aremove(s, k).len() == if afind(s, k) is Some {
            s.len() - 1
        } else {
            s.len() as int
        },
        akeys_unique(aremove(s, k)),
    decreases s.len(),
{
    if s.len() == 0 {
    } else if s[0].0 == k {
        assert forall|j: int| 0 <= j < s.drop_first().len() implies s.drop_first()[j].0 != k by {
            assert(s.drop_first()[j] == s[j + 1]);
        }
        lemma_afind_none(s.drop_first(), k);
    } else {
        assert(akeys_unique(s.drop_first()));
        lemma_aremove_find(s.drop_first(), k, k2);
        let t = seq![s[0]] + aremove(s.drop_first(), k);
        assert(t.drop_first() =~= aremove(s.drop_first(), k));
        assert(afind(t, k) == afind(aremove(s.drop_first(), k), k));
        lemma_aremove_keys(s.drop_first(), k);
        assert forall|i: int, j: int| 0 <= i < j < t.len() implies t[i].0 != t[j].0 by {
            if i > 0 {
                assert(t[i] == aremove(s.drop_first(), k)[i - 1]);
            }
            assert(t[j] == aremove(s.drop_first(), k)[j - 1]);
        }
    }
}

/// Every key of a table after removal is a key the table already had.
pub proof fn lemma_aremove_keys<K, V>(s: Seq<(K, V)>, k: K)
    ensures
        forall|i: int|
            0 <= i < aremove(s, k).len() ==> exists|j: int|
                0 <= j < s.len() && s[j].0 == #[trigger] aremove(s, k)[i].0,
    decreases s.len(),
{
    if s.len() == 0 {
    } else if s[0].0 == k {
        assert forall|i: int| 0 <= i < aremove(s, k).len() implies exists|j: int|
            0 <= j < s.len() && s[j].0 == #[trigger] aremove(s, k)[i].0 by {
            assert(s[i + 1].0 == aremove(s, k)[i].0);
        }
    } else {
        lemma_aremove_keys(s.drop_first(), k);
        let t = seq![s[0]] + aremove(s.drop_first(), k);
        assert forall|i: int| 0 <= i < t.len() implies exists|j: int|
            0 <= j < s.len() && s[j].0 == #[trigger] t[i].0 by {
            if i == 0 {
                assert(s[0].0 == t[0].0);
            } else {
                assert(t[i] == aremove(s.drop_first(), k)[i - 1]);
                let j = choose|j: int|
                    0 <= j < s.drop_first().len() && s.drop_first()[j].0 == aremove(
                        s.drop_first(),
                        k,
                    )[i - 1].0;
                assert(s[j + 1].0 == t[i].0);
            }
        }
    }
}

/// Index of the first binding of `k` in an executable table, scanning in
/// order.
pub fn vfind_index<V>(v: &Vec<(String, V)>, k: &String) -> (r: Option<usize>)
    ensures
        match r {
            Some(i) => i < v@.len() && v@[i as int].0@ == k@ && forall|j: int|
                0 <= j < i ==> v@[j].0@ != k@,
            None => forall|j: int| 0 <= j < v@.len() ==> v@[j].0@ != k@,
        },
{
    let mut i: usize = 0;
    while i < v.len()
        invariant
            i <= v@.len(),
            forall|j: int| 0 <= j < i ==> v@[j].0@ != k@,
        decreases v@.len() - i,
    {
        if v[i].0.eq(k) {
            return Some(i);
        }
        i += 1;
    }
    None
}


/// If a key is unbound, no entry carries it.
pub proof fn lemma_afind_none_converse<K, V>(s: Seq<(K, V)>, k: K)
    requires
        afind(s, k) is None,
    ensures
        forall|j: int| 0 <= j < s.len() ==> (#[trigger] s[j]).0 != k,
    decreases s.len(),
{
    if s.len() > 0 {
        lemma_afind_none_converse(s.drop_first(), k);
        assert forall|j: int| 0 <= j < s.len() implies (#[trigger] s[j]).0 != k by {
            if j > 0 {
                assert(s.drop_first()[j - 1] == s[j]);
            }
        }
    }
}

/// Re-binding a key to the value it already has changes nothing.
pub proof fn lemma_aput_identity<K, V>(s: Seq<(K, V)>, k: K)
    requires
        afind(s, k) is Some,
    ensures
        aput(s, k, afind(s, k)->Some_0) == s,
    decreases s.len(),
{
    if s.len() > 0 {
        if s[0].0 == k {
            assert(s[0] == (k, afind(s, k)->Some_0));
            assert(aput(s, k, afind(s, k)->Some_0) =~= s);
        } else {
            lemma_aput_identity(s.drop_first(), k);
            assert(aput(s, k, afind(s, k)->Some_0) =~= s);
        }
    }
}

} // verus!
