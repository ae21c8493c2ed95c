//! Small sets of key codes, kept as duplicate-free vectors.
//!
//! Both the router's diagnostic key tracking and the emulation side's
//! authoritative dedup maintain a set of currently pressed keys. The sets are
//! held as vectors without duplicates; insertion reports whether the key was
//! new and removal whether it was present, which is exactly what dedup needs.

use vstd::prelude::*;

verus! {

/// The predicate that keeps every key but the given one.
pub open spec fn key_neq(key: u32) -> spec_fn(u32) -> bool {
    |k: u32| k != key
}

/// Whether the vector holds the value.
pub fn vec_contains(v: &Vec<u32>, x: u32) -> (r: bool)
    ensures
        r == v@.contains(x),
{
    let mut i: usize = 0;
    while i < v.len()
        invariant
            0 <= i <= v@.len(),
            forall|j: int| 0 <= j < i ==> v@[j] != x,
        decreases v@.len() - i,
    {
        if v[i] == x {
            return true;
        }
        i = i + 1;
    }
    false
}

/// Everything a filtered sequence holds was in the sequence it was filtered
/// from.
pub(crate) proof fn lemma_filter_membership(s: Seq<u32>, pred: spec_fn(u32) -> bool, x: u32)
    requires
        s.filter(pred).contains(x),
    ensures
        s.contains(x),
    decreases s.len(),
{
    reveal(Seq::filter);
    if s.len() == 0 {
    } else {
        let sub = s.drop_last().filter(pred);
        if pred(s.last()) {
            if x == s.last() {
                assert(s[s.len() - 1] == x);
            } else {
                let full = sub.push(s.last());
                assert(full.contains(x));
                let j = choose|j: int| 0 <= j < full.len() && full[j] == x;
                assert(j < sub.len());
                assert(sub.contains(x));
                lemma_filter_membership(s.drop_last(), pred, x);
                let m = choose|m: int| 0 <= m < s.drop_last().len() && s.drop_last()[m] == x;
                assert(s[m] == x);
            }
        } else {
            lemma_filter_membership(s.drop_last(), pred, x);
            let m = choose|m: int| 0 <= m < s.drop_last().len() && s.drop_last()[m] == x;
            assert(s[m] == x);
        }
    }
}

/// Pushing a fresh value keeps a sequence duplicate-free.
pub(crate) proof fn lemma_push_no_duplicates(s: Seq<u32>, x: u32)
    requires
        s.no_duplicates(),
        !s.contains(x),
    ensures
        s.push(x).no_duplicates(),
{
    let post = s.push(x);
    assert forall|a: int, b: int| 0 <= a < b < post.len() implies post[a] != post[b] by {
        if b == post.len() - 1 {
            assert(s[a] != x);
        }
    }
}

/// Add a key to the set. Returns whether the key was new; a key already held
/// leaves the set as it was.
pub fn insert_key(v: &mut Vec<u32>, key: u32) -> (r: bool)
    requires
        old(v)@.no_duplicates(),
    ensures
        r == !old(v)@.contains(key),
        final(v)@ == if old(v)@.contains(key) {
            old(v)@
        } else {
            old(v)@.push(key)
        },
        final(v)@.no_duplicates(),
{
    if vec_contains(v, key) {
        false
    } else {
        proof {
            lemma_push_no_duplicates(v@, key);
        }
        v.push(key);
        true
    }
}

/// Take a key out of the set. Returns whether the key was held; the set is
/// left without it either way.
pub fn remove_key(v: &mut Vec<u32>, key: u32) -> (r: bool)
    requires
        old(v)@.no_duplicates(),
    ensures
        r == old(v)@.contains(key),
        final(v)@ == old(v)@.filter(key_neq(key)),
        final(v)@.no_duplicates(),
{
    let ghost pre = v@;
    let ghost pred = key_neq(key);
    let mut out: Vec<u32> = Vec::new();
    let mut found = false;
    let mut i: usize = 0;
    proof {
        reveal(Seq::filter);
        assert(pre.take(0) =~= Seq::<u32>::empty());
    }
    while i < v.len()
        invariant
            0 <= i <= pre.len(),
            v@ == pre,
            pre.no_duplicates(),
            pred == key_neq(key),
            out@ == pre.take(i as int).filter(pred),
            out@.no_duplicates(),
            found == pre.take(i as int).contains(key),
        decreases pre.len() - i,
    {
        let k = v[i];
        proof {
            reveal(Seq::filter);
            let s2 = pre.take(i as int + 1);
            assert(s2.drop_last() =~= pre.take(i as int));
            assert(s2.last() == pre[i as int]);
            if pre[i as int] != key {
                assert(pred(pre[i as int]));
                assert(s2.filter(pred) == pre.take(i as int).filter(pred).push(pre[i as int]));
                assert(!out@.contains(pre[i as int])) by {
                    if out@.contains(pre[i as int]) {
                        lemma_filter_membership(pre.take(i as int), pred, pre[i as int]);
                        let j = choose|j: int|
                            0 <= j < pre.take(i as int).len() && pre.take(i as int)[j] == pre[i as int];
                        assert(pre[j] == pre[i as int]);
                        assert(false);
                    }
                };
                lemma_push_no_duplicates(out@, pre[i as int]);
                assert(s2.contains(key) == pre.take(i as int).contains(key)) by {
                    if s2.contains(key) {
                        let j = choose|j: int| 0 <= j < s2.len() && s2[j] == key;
                        assert(j != i);
                        assert(pre.take(i as int)[j] == key);
                    }
                    if pre.take(i as int).contains(key) {
                        let j = choose|j: int|
                            0 <= j < pre.take(i as int).len() && pre.take(i as int)[j] == key;
                        assert(s2[j] == key);
                    }
                };
            } else {
                assert(s2.filter(pred) == pre.take(i as int).filter(pred));
                assert(s2[i as int] == key);
                assert(s2.contains(key));
            }
        }
        if k != key {
            out.push(k);
        } else {
            found = true;
        }
        i = i + 1;
    }
    proof {
        assert(pre.take(pre.len() as int) =~= pre);
    }
    *v = out;
    found
}

} // verus!
