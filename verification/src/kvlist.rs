//! String-keyed association lists with unique keys: the lookup and
//! insert-or-replace machinery shared by the request parameters and the
//! rate limiter's tables.

use vstd::prelude::*;
use crate::convert::text_eq;

verus! {

pub open spec fn kv_keys_unique<V>(ps: Seq<(String, V)>) -> bool {
    forall|i: int, j: int|
        0 <= i < j < ps.len() ==> (#[trigger] ps[i]).0@ != (#[trigger] ps[j]).0@
}

pub open spec fn kv_index_from<V>(ps: Seq<(String, V)>, k: Seq<char>, i: int) -> Option<int>
    decreases ps.len() - i,
{
    if i < 0 || i >= ps.len() {
        None
    } else if ps[i].0@ == k {
        Some(i)
    } else {
        kv_index_from(ps, k, i + 1)
    }
}

/// The first entry with key `k`, if any.
pub open spec fn kv_index<V>(ps: Seq<(String, V)>, k: Seq<char>) -> Option<int> {
    kv_index_from(ps, k, 0)
}

/// The value stored under key `k`, if any.
pub open spec fn kv_value<V>(ps: Seq<(String, V)>, k: Seq<char>) -> Option<V> {
    match kv_index(ps, k) {
        Some(i) => Some(ps[i].1),
        None => None,
    }
}

pub proof fn lemma_kv_index_prefix<V>(ps: Seq<(String, V)>, k: Seq<char>, i: int)
    requires
        0 <= i <= ps.len(),
        forall|j: int| 0 <= j < i ==> (#[trigger] ps[j]).0@ != k,
    ensures
        kv_index(ps, k) == kv_index_from(ps, k, i),
    decreases i,
{
    if i > 0 {
        lemma_kv_index_prefix(ps, k, i - 1);
    }
}

pub proof fn lemma_kv_index_same_keys<V>(
    ps1: Seq<(String, V)>,
    ps2: Seq<(String, V)>,
    k: Seq<char>,
    i: int,
)
    requires
        ps1.len() == ps2.len(),
        forall|j: int| 0 <= j < ps1.len() ==> (#[trigger] ps1[j]).0@ == (#[trigger] ps2[j]).0@,
    ensures
        kv_index_from(ps1, k, i) == kv_index_from(ps2, k, i),
    decreases ps1.len() - i,
{
    if 0 <= i && i < ps1.len() {
        lemma_kv_index_same_keys(ps1, ps2, k, i + 1);
    }
}

pub proof fn lemma_kv_index_push<V>(ps: Seq<(String, V)>, p: (String, V), k: Seq<char>, i: int)
    requires
        p.0@ != k,
        0 <= i <= ps.len(),
    ensures
        kv_index_from(ps.push(p), k, i) == kv_index_from(ps, k, i),
    decreases ps.len() - i,
{
    if i < ps.len() {
        assert(ps.push(p)[i] == ps[i]);
        lemma_kv_index_push(ps, p, k, i + 1);
    } else {
        assert(ps.push(p)[i] == p);
        assert(kv_index_from(ps.push(p), k, i + 1) is None);
        assert(kv_index_from(ps, k, i) is None);
    }
}

/// A found index lies in range and carries the key.
pub proof fn lemma_kv_index_props<V>(ps: Seq<(String, V)>, k: Seq<char>, i: int)
    requires
        0 <= i,
    ensures
        kv_index_from(ps, k, i) matches Some(j) ==> (i <= j < ps.len() && ps[j].0@ == k),
    decreases ps.len() - i,
{
    if i < ps.len() && ps[i].0@ != k {
        lemma_kv_index_props(ps, k, i + 1);
    }
}

/// Inserts an entry, replacing the value under an existing key.
pub fn kv_upsert<V>(entries: &mut Vec<(String, V)>, key: String, value: V)
    requires
        kv_keys_unique(old(entries)@),
    ensures
        kv_keys_unique(final(entries)@),
        kv_value(final(entries)@, key@) == Some(value),
        forall|k: Seq<char>|
            k != key@ ==> kv_value(final(entries)@, k) == kv_value(old(entries)@, k),
{
    let ghost orig = entries@;
    let n = entries.len();
    let mut i: usize = 0;
    while i < n
        invariant
            0 <= i <= n,
            n == entries@.len(),
            entries@ == orig,
            orig == old(entries)@,
            kv_keys_unique(orig),
            forall|j: int| 0 <= j < i ==> (#[trigger] entries@[j]).0@ != key@,
        decreases n - i,
    {
        if text_eq(entries[i].0.as_str(), key.as_str()) {
            let ghost gp = (key, value);
            let ghost gkey = gp.0@;
            let ghost gi = i as int;
            entries[i] = (key, value);
            proof {
                let upd = entries@;
                assert(upd == orig.update(gi, gp));
                assert(upd[gi].0@ == gkey);
                assert(orig[gi].0@ == gkey);
                assert forall|j: int|
                    0 <= j < upd.len() implies (#[trigger] upd[j]).0@ == orig[j].0@ by {
                    if j != gi {
                        assert(upd[j] == orig[j]);
                    }
                }
                assert forall|a: int, b: int|
                    0 <= a < b < upd.len() implies (#[trigger] upd[a]).0@ != (
                    #[trigger] upd[b]).0@ by {
                    assert(upd[a].0@ == orig[a].0@);
                    assert(upd[b].0@ == orig[b].0@);
                }
                // The replaced entry is the first with this key.
                lemma_kv_index_prefix(upd, gkey, gi);
                assert(kv_index(upd, gkey) == Some(gi));
                assert(kv_value(upd, gkey) == Some(gp.1));
                assert forall|k: Seq<char>| k != gkey implies kv_value(upd, k) == kv_value(
                    orig,
                    k,
                ) by {
                    lemma_kv_index_same_keys(upd, orig, k, 0);
                    lemma_kv_index_props(orig, k, 0);
                    match kv_index(orig, k) {
                        Some(i0) => {
                            assert(orig[i0].0@ == k);
                            assert(i0 != gi);
                            assert(upd[i0] == orig[i0]);
                        },
                        None => {},
                    }
                }
            }
            return;
        }
        i = i + 1;
    }
    let ghost gp = (key, value);
    let ghost gkey = gp.0@;
    entries.push((key, value));
    proof {
        let upd = entries@;
        assert(upd == orig.push(gp));
        assert(upd[orig.len() as int] == gp);
        assert(forall|j: int| 0 <= j < orig.len() ==> (#[trigger] orig[j]).0@ != gkey);
        assert forall|a: int, b: int|
            0 <= a < b < upd.len() implies (#[trigger] upd[a]).0@ != (#[trigger] upd[b]).0@ by {
            if b < orig.len() {
                assert(upd[a] == orig[a]);
                assert(upd[b] == orig[b]);
            } else {
                assert(upd[a] == orig[a]);
                assert(upd[b] == gp);
            }
        }
        lemma_kv_index_prefix(upd, gkey, orig.len() as int);
        assert(kv_index(upd, gkey) == Some(orig.len() as int));
        assert(kv_value(upd, gkey) == Some(gp.1));
        assert forall|k: Seq<char>| k != gkey implies kv_value(upd, k) == kv_value(orig, k) by {
            lemma_kv_index_push(orig, gp, k, 0);
            lemma_kv_index_props(orig, k, 0);
            match kv_index(orig, k) {
                Some(i0) => {
                    assert(upd[i0] == orig[i0]);
                },
                None => {},
            }
        }
    }
}

/// Finds the entry with the given key.
pub fn kv_find_index<V>(entries: &Vec<(String, V)>, key: &str) -> (r: Option<usize>)
    ensures
        r matches Some(i) ==> (kv_index(entries@, key@) == Some(i as int) && i < entries@.len()
            && entries@[i as int].0@ == key@),
        r is None ==> kv_index(entries@, key@) is None,
{
    let n = entries.len();
    let mut i: usize = 0;
    while i < n
        invariant
            0 <= i <= n,
            n == entries@.len(),
            kv_index(entries@, key@) == kv_index_from(entries@, key@, i as int),
        decreases n - i,
    {
        if text_eq(entries[i].0.as_str(), key) {
            return Some(i);
        }
        i = i + 1;
    }
    None
}

} // verus!
