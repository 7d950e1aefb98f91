//! Facts about filtered sequences.
use vstd::prelude::*;

verus! {

/// Filtering one element more keeps it or not.
pub(crate) proof fn lemma_filter_step<T>(s: Seq<T>, i: int, pick: spec_fn(T) -> bool)
    requires
        0 <= i < s.len(),
    ensures
        s.take(i + 1).filter(pick) == (if pick(s[i]) {
            s.take(i).filter(pick).push(s[i])
        } else {
            s.take(i).filter(pick)
        }),
{
    reveal(Seq::filter);
    assert(s.take(i + 1).drop_last() =~= s.take(i));
    assert(s.take(i + 1).last() == s[i]);
}

/// Nothing is kept of nothing.
pub(crate) proof fn lemma_filter_none<T>(s: Seq<T>, pick: spec_fn(T) -> bool)
    ensures
        s.take(0).filter(pick) == Seq::<T>::empty(),
{
    reveal(Seq::filter);
    assert(s.take(0) =~= Seq::<T>::empty());
}

/// Where the `k`-th kept element came from.
pub(crate) proof fn lemma_filter_from<T>(s: Seq<T>, pick: spec_fn(T) -> bool, k: int) -> (i: int)
    requires
        0 <= k < s.filter(pick).len(),
    ensures
        0 <= i < s.len(),
        s[i] == s.filter(pick)[k],
        pick(s[i]),
        s.take(i).filter(pick).len() == k,
    decreases s.len(),
{
    reveal(Seq::filter);
    let n = s.len() - 1;
    assert(s.take(s.len() as int) =~= s);
    lemma_filter_step(s, n, pick);
    if k == s.take(n).filter(pick).len() {
        n
    } else {
        let i = lemma_filter_from(s.take(n), pick, k);
        assert(s.take(n).take(i) =~= s.take(i));
        i
    }
}

/// A longer prefix keeps at least as much.
pub(crate) proof fn lemma_filter_grows<T>(s: Seq<T>, pick: spec_fn(T) -> bool, i: int, j: int)
    requires
        0 <= i <= j <= s.len(),
    ensures
        s.take(i).filter(pick).len() <= s.take(j).filter(pick).len(),
    decreases j - i,
{
    if i < j {
        lemma_filter_grows(s, pick, i, j - 1);
        lemma_filter_step(s, j - 1, pick);
    }
}

/// What is kept of a prefix is a prefix of what is kept.
pub(crate) proof fn lemma_filter_prefix<T>(s: Seq<T>, pick: spec_fn(T) -> bool, n: int, k: int)
    requires
        0 <= n <= s.len(),
        0 <= k < s.take(n).filter(pick).len(),
    ensures
        k < s.filter(pick).len(),
        s.filter(pick)[k] == s.take(n).filter(pick)[k],
    decreases s.len() - n,
{
    assert(s.take(s.len() as int) =~= s);
    if n < s.len() {
        lemma_filter_step(s, n, pick);
        lemma_filter_prefix(s, pick, n + 1, k);
    }
}

/// A kept element is found where those kept before it end.
pub(crate) proof fn lemma_filter_at<T>(s: Seq<T>, pick: spec_fn(T) -> bool, i: int)
    requires
        0 <= i < s.len(),
        pick(s[i]),
    ensures
        s.take(i).filter(pick).len() < s.filter(pick).len(),
        s.filter(pick)[s.take(i).filter(pick).len() as int] == s[i],
{
    lemma_filter_step(s, i, pick);
    lemma_filter_prefix(s, pick, i + 1, s.take(i).filter(pick).len() as int);
}

} // verus!
