//! First-seen-order deduplication, specified over sequences.
//!
//! Module references form a set, but rendering needs a stable order, so the
//! engine keeps them as a duplicate-free sequence in the order in which they
//! were first contributed.  The spec functions here define that
//! deduplication; the lemmas give the facts the rest of the engine needs:
//! inserting element by element computes the deduplication of the
//! concatenation, membership is preserved, and the result is duplicate-free.

use vstd::prelude::*;

verus! {

/// `acc` extended by `x` unless `x` is already present.
pub open spec fn insert_unique<T>(acc: Seq<T>, x: T) -> Seq<T> {
    if acc.contains(x) {
        acc
    } else {
        acc.push(x)
    }
}

/// `acc` extended by every element of `s` in order, each unless already present.
pub open spec fn extend_unique<T>(acc: Seq<T>, s: Seq<T>) -> Seq<T>
    decreases s.len(),
{
    if s.len() == 0 {
        acc
    } else {
        insert_unique(extend_unique(acc, s.drop_last()), s.last())
    }
}

/// The elements of `s`, each kept at its first occurrence only.
pub open spec fn unique<T>(s: Seq<T>) -> Seq<T> {
    extend_unique(Seq::empty(), s)
}

/// No element occurs twice.
pub open spec fn distinct<T>(s: Seq<T>) -> bool {
    forall|i: int, j: int| 0 <= i < j < s.len() ==> s[i] != s[j]
}

/// Extending with a concatenation is extending with its parts in turn.
pub proof fn lemma_extend_unique_concat<T>(acc: Seq<T>, a: Seq<T>, b: Seq<T>)
    ensures
        extend_unique(acc, a + b) == extend_unique(extend_unique(acc, a), b),
    decreases b.len(),
{
    if b.len() == 0 {
        assert(a + b =~= a);
    } else {
        assert((a + b).drop_last() =~= a + b.drop_last());
        assert((a + b).last() == b.last());
        lemma_extend_unique_concat(acc, a, b.drop_last());
    }
}

/// Deduplication keeps exactly the elements of the input.
pub proof fn lemma_extend_unique_membership<T>(acc: Seq<T>, s: Seq<T>)
    ensures
        forall|x: T|
            extend_unique(acc, s).contains(x) <==> acc.contains(x) || s.contains(x),
    decreases s.len(),
{
    if s.len() == 0 {
        assert(forall|x: T| !s.contains(x));
    } else {
        lemma_extend_unique_membership(acc, s.drop_last());
        let pre = extend_unique(acc, s.drop_last());
        assert forall|x: T|
            extend_unique(acc, s).contains(x) <==> acc.contains(x) || s.contains(x) by {
            if s.contains(x) {
                let i = choose|i: int| 0 <= i < s.len() && s[i] == x;
                if i < s.len() - 1 {
                    assert(s.drop_last()[i] == x);
                    assert(s.drop_last().contains(x));
                } else {
                    assert(s.last() == x);
                }
            }
            if s.drop_last().contains(x) {
                let i = choose|i: int| 0 <= i < s.drop_last().len() && s.drop_last()[i] == x;
                assert(s[i] == x);
                assert(s.contains(x));
            }
            if s.last() == x {
                assert(s[s.len() - 1] == x);
                assert(s.contains(x));
            }
            if !pre.contains(s.last()) {
                assert(pre.push(s.last())[pre.len() as int] == s.last());
                assert(pre.push(s.last()).contains(s.last()));
                if pre.contains(x) {
                    let i = choose|i: int| 0 <= i < pre.len() && pre[i] == x;
                    assert(pre.push(s.last())[i] == x);
                }
                if pre.push(s.last()).contains(x) {
                    let i = choose|i: int|
                        0 <= i < pre.push(s.last()).len() && pre.push(s.last())[i] == x;
                    if i < pre.len() {
                        assert(pre[i] == x);
                    } else {
                        assert(x == s.last());
                    }
                }
            }
        }
    }
}

/// Deduplication never introduces a duplicate.
pub proof fn lemma_extend_unique_distinct<T>(acc: Seq<T>, s: Seq<T>)
    requires
        distinct(acc),
    ensures
        distinct(extend_unique(acc, s)),
    decreases s.len(),
{
    if s.len() > 0 {
        lemma_extend_unique_distinct(acc, s.drop_last());
        let pre = extend_unique(acc, s.drop_last());
        if !pre.contains(s.last()) {
            assert forall|i: int, j: int|
                0 <= i < j < pre.push(s.last()).len() implies pre.push(s.last())[i]
                != pre.push(s.last())[j] by {
                if j < pre.len() {
                } else {
                    assert(pre.push(s.last())[j] == s.last());
                    assert(pre[i] == pre.push(s.last())[i]);
                    if pre[i] == s.last() {
                        assert(pre.contains(s.last()));
                    }
                }
            }
        }
    }
}

/// An element of a concatenation comes from one of the parts.
pub proof fn lemma_contains_concat<T>(a: Seq<T>, b: Seq<T>)
    ensures
        forall|x: T| (a + b).contains(x) <==> a.contains(x) || b.contains(x),
{
    assert forall|x: T| (a + b).contains(x) <==> a.contains(x) || b.contains(x) by {
        if (a + b).contains(x) {
            let i = choose|i: int| 0 <= i < (a + b).len() && (a + b)[i] == x;
            if i < a.len() {
                assert(a[i] == x);
            } else {
                assert(b[i - a.len()] == x);
            }
        }
        if a.contains(x) {
            let i = choose|i: int| 0 <= i < a.len() && a[i] == x;
            assert((a + b)[i] == x);
        }
        if b.contains(x) {
            let i = choose|i: int| 0 <= i < b.len() && b[i] == x;
            assert((a + b)[a.len() + i] == x);
        }
    }
}

} // verus!
