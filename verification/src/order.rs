//! Playing orders: permutations of the indices of a list.

use vstd::prelude::*;

verus! {

/// Whether `order` holds each of the numbers `0, ..., len - 1` exactly once,
/// where `len` is its own length.
pub open spec fn is_permutation(order: Seq<usize>) -> bool {
    &&& forall|i: int| 0 <= i < order.len() ==> (#[trigger] order[i]) < order.len()
    &&& order.no_duplicates()
}

/// Whether `order` is `0, 1, ..., len - 1`.
pub open spec fn is_identity(order: Seq<usize>) -> bool {
    forall|i: int| 0 <= i < order.len() ==> (#[trigger] order[i]) == i
}

/// Where the index `x` of a list ends up when `count` items are inserted
/// into the list at `at`.
pub open spec fn shifted(x: usize, at: int, count: int) -> int {
    if x >= at {
        x + count
    } else {
        x as int
    }
}

/// `s` with `items` inserted at `at`.
pub open spec fn spliced<T>(s: Seq<T>, at: int, items: Seq<T>) -> Seq<T> {
    s.subrange(0, at) + items + s.subrange(at, s.len() as int)
}

/// Whether `x` lies outside `lo..hi`.
pub open spec fn outside(lo: int, hi: int) -> spec_fn(usize) -> bool {
    |x: usize| !(lo <= x < hi)
}

/// The identity is a permutation.
pub proof fn lemma_identity_is_permutation(order: Seq<usize>)
    requires
        is_identity(order),
    ensures
        is_permutation(order),
{
}

/// A sequence that holds the same items as a permutation, each as often, is
/// a permutation too.
pub proof fn lemma_rearranged_permutation(a: Seq<usize>, b: Seq<usize>)
    requires
        is_permutation(a),
        a.to_multiset() == b.to_multiset(),
    ensures
        is_permutation(b),
        b.len() == a.len(),
{
    vstd::seq_lib::to_multiset_len(a);
    vstd::seq_lib::to_multiset_len(b);
    assert forall|i: int| 0 <= i < b.len() implies (#[trigger] b[i]) < b.len() by {
        vstd::seq_lib::to_multiset_contains(b, b[i]);
        vstd::seq_lib::to_multiset_contains(a, b[i]);
        assert(b.contains(b[i]));
        assert(a.contains(b[i]));
        let k = choose|k: int| 0 <= k < a.len() && a[k] == b[i];
        assert(a[k] < a.len());
    }
    a.lemma_multiset_has_no_duplicates();
    b.lemma_multiset_has_no_duplicates_conv();
}

/// Filtering leaves a sequence as it is when every item passes.
pub proof fn lemma_filter_keeps_all<T>(s: Seq<T>, pred: spec_fn(T) -> bool)
    requires
        forall|i: int| 0 <= i < s.len() ==> pred(#[trigger] s[i]),
    ensures
        s.filter(pred) == s,
    decreases s.len(),
{
    reveal(Seq::filter);
    if s.len() > 0 {
        lemma_filter_keeps_all(s.drop_last(), pred);
        assert(s.drop_last().push(s.last()) =~= s);
    }
}

/// Inserting an item that the filter drops does not change what the filter
/// lets through.
pub proof fn lemma_filter_insert_dropped<T>(s: Seq<T>, at: int, item: T, pred: spec_fn(T) -> bool)
    requires
        0 <= at <= s.len(),
        !pred(item),
    ensures
        s.insert(at, item).filter(pred) == s.filter(pred),
{
    let head = s.subrange(0, at);
    let tail = s.subrange(at, s.len() as int);
    let one = seq![item];
    assert(s.insert(at, item) =~= head + one + tail);
    assert(s =~= head + tail);
    Seq::filter_distributes_over_add(head + one, tail, pred);
    Seq::filter_distributes_over_add(head, one, pred);
    Seq::filter_distributes_over_add(head, tail, pred);
    assert(one.filter(pred) =~= Seq::<T>::empty()) by {
        reveal(Seq::filter);
        assert(one.drop_last() =~= Seq::<T>::empty());
        assert(one.drop_last().filter(pred) =~= Seq::<T>::empty());
    }
    assert(head.filter(pred) + one.filter(pred) =~= head.filter(pred));
}

/// Inserting an item that a sequence without duplicates does not hold
/// leaves it without duplicates.
pub proof fn lemma_insert_fresh<T>(s: Seq<T>, at: int, item: T)
    requires
        0 <= at <= s.len(),
        s.no_duplicates(),
        !s.contains(item),
    ensures
        s.insert(at, item).no_duplicates(),
{
    let t = s.insert(at, item);
    assert forall|i: int, j: int| 0 <= i < t.len() && 0 <= j < t.len() && i != j implies t[i]
        != t[j] by {
        let a = if i < at {
            i
        } else {
            i - 1
        };
        let b = if j < at {
            j
        } else {
            j - 1
        };
        if i != at && j != at {
            assert(t[i] == s[a]);
            assert(t[j] == s[b]);
        } else if i == at {
            assert(t[j] == s[b]);
            assert(s.contains(s[b]));
        } else {
            assert(t[i] == s[a]);
            assert(s.contains(s[a]));
        }
    }
}

} // verus!
