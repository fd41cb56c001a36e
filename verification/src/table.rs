//! Tables: the mathematical model of a keyed store. A table is a sequence of
//! key and value pairs, in the order in which the keys were first stored, and
//! in a table that is kept well no key occurs twice.

use vstd::prelude::*;

verus! {

/// Whether some entry of `t` has the key `k`.
pub open spec fn has_key<K, V>(t: Seq<(K, V)>, k: K) -> bool {
    exists|i: int| 0 <= i < t.len() && (#[trigger] t[i]).0 == k
}

/// The place of an entry of `t` with the key `k`, where there is one.
pub open spec fn slot_of<K, V>(t: Seq<(K, V)>, k: K) -> int {
    choose|i: int| 0 <= i < t.len() && (#[trigger] t[i]).0 == k
}

/// No key occurs twice in `t`.
pub open spec fn distinct_keys<K, V>(t: Seq<(K, V)>) -> bool {
    forall|i: int, j: int| 0 <= i < j < t.len() ==> (#[trigger] t[i]).0 != (#[trigger] t[j]).0
}

/// The value that `t` holds for `k`, if it holds one.
pub open spec fn lookup<K, V>(t: Seq<(K, V)>, k: K) -> Option<V> {
    if has_key(t, k) {
        Some(t[slot_of(t, k)].1)
    } else {
        None
    }
}

/// The table `t` with `v` as the value for `k`: in the place of the former
/// value where `t` holds one, at the end where it holds none.
pub open spec fn stored<K, V>(t: Seq<(K, V)>, k: K, v: V) -> Seq<(K, V)> {
    if has_key(t, k) {
        t.update(slot_of(t, k), (k, v))
    } else {
        t.push((k, v))
    }
}

/// In a table without repeated keys, an entry found under `k` is the entry
/// that `lookup` reads.
pub proof fn lemma_found<K, V>(t: Seq<(K, V)>, i: int, k: K)
    requires
        distinct_keys(t),
        0 <= i < t.len(),
        t[i].0 == k,
    ensures
        has_key(t, k),
        slot_of(t, k) == i,
        lookup(t, k) == Some(t[i].1),
{
    let j = slot_of(t, k);
    assert(0 <= j < t.len() && t[j].0 == k);
    if j < i {
        assert(t[j].0 != t[i].0);
    } else if i < j {
        assert(t[i].0 != t[j].0);
    }
}

/// Storing a value keeps the keys distinct, makes it the value of its key and
/// leaves every other key as it was.
pub proof fn lemma_stored<K, V>(t: Seq<(K, V)>, k: K, v: V)
    requires
        distinct_keys(t),
    ensures
        distinct_keys(stored(t, k, v)),
        lookup(stored(t, k, v), k) == Some(v),
        forall|o: K| o != k ==> lookup(#[trigger] stored(t, k, v), o) == lookup(t, o),
        forall|o: K| has_key(stored(t, k, v), o) <==> o == k || has_key(t, o),
{
    let u = stored(t, k, v);
    let at = if has_key(t, k) { slot_of(t, k) } else { t.len() as int };
    assert(0 <= at < u.len() && u[at] == (k, v));
    assert(forall|i: int| 0 <= i < t.len() && i != at ==> u[i] == t[i]);
    assert(forall|i: int| 0 <= i < u.len() ==> ((#[trigger] u[i]).0 == k <==> i == at)) by {
        if has_key(t, k) {
            assert forall|i: int| 0 <= i < u.len() && i != at implies (#[trigger] u[i]).0 != k by {
                if i < at {
                    assert(t[i].0 != t[at].0);
                } else {
                    assert(t[at].0 != t[i].0);
                }
            }
        } else {
            assert forall|i: int| 0 <= i < u.len() && i != at implies (#[trigger] u[i]).0 != k by {
                assert(u[i] == t[i]);
            }
        }
    }
    assert(distinct_keys(u)) by {
        assert forall|i: int, j: int| 0 <= i < j < u.len() implies (#[trigger] u[i]).0 != (
        #[trigger] u[j]).0 by {
            if i != at && j != at {
                assert(t[i].0 != t[j].0);
            }
        }
    }
    lemma_found(u, at, k);
    assert forall|o: K| o != k implies lookup(#[trigger] stored(t, k, v), o) == lookup(t, o) by {
        if has_key(t, o) {
            let j = slot_of(t, o);
            assert(j != at);
            assert(u[j] == t[j]);
            lemma_found(u, j, o);
        } else if has_key(u, o) {
            let j = slot_of(u, o);
            assert(j != at);
            assert(t[j].0 == o);
        }
    }
    assert forall|o: K| has_key(u, o) <==> o == k || has_key(t, o) by {
        if has_key(u, o) && o != k {
            let j = slot_of(u, o);
            assert(j != at);
            assert(t[j].0 == o);
        }
        if has_key(t, o) && o != k {
            let j = slot_of(t, o);
            assert(u[j] == t[j]);
        }
    }
}

} // verus!
