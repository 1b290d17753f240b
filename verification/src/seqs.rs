//! Sequence facts used by the list logic.
use vstd::prelude::*;

verus! {

/// `r` lists, in ascending order, exactly the indices `i < n` with `keep(i)`.
pub open spec fn lists_indices_where(r: Seq<usize>, n: int, keep: spec_fn(int) -> bool) -> bool {
    &&& forall|k: int| 0 <= k < r.len() ==> #[trigger] r[k] < n && keep(r[k] as int)
    &&& forall|a: int, b: int| 0 <= a < b < r.len() ==> r[a] < r[b]
    &&& forall|i: int| 0 <= i < n && #[trigger] keep(i) ==> r.contains(i as usize)
}

/// Filtering twice keeps what both predicates keep.
pub proof fn lemma_filter_filter<A>(s: Seq<A>, p: spec_fn(A) -> bool, q: spec_fn(A) -> bool)
    ensures
        s.filter(p).filter(q) == s.filter(|x: A| p(x) && q(x)),
    decreases s.len(),
{
    reveal(Seq::filter);
    if s.len() > 0 {
        lemma_filter_filter(s.drop_last(), p, q);
        let pq = |x: A| p(x) && q(x);
        if p(s.last()) {
            s.drop_last().filter(p).lemma_filter_push(s.last(), q);
            assert(s.drop_last().filter(p).push(s.last()).filter(q) == s.filter(p).filter(q));
        }
    } else {
        assert(s.filter(p).filter(q) =~= s.filter(|x: A| p(x) && q(x)));
    }
}

/// Filters by predicates that agree on every element are equal.
pub proof fn lemma_filter_same<A>(s: Seq<A>, p: spec_fn(A) -> bool, q: spec_fn(A) -> bool)
    requires
        forall|x: A| #[trigger] p(x) == q(x),
    ensures
        s.filter(p) == s.filter(q),
{
    assert(p =~= q);
}

/// A filter of a sequence has no more elements than it, and each of them
/// satisfies the predicate.
pub proof fn lemma_filter_facts<A>(s: Seq<A>, p: spec_fn(A) -> bool)
    ensures
        s.filter(p).len() <= s.len(),
        forall|i: int| 0 <= i < s.filter(p).len() ==> p(#[trigger] s.filter(p)[i]),
{
    broadcast use Seq::lemma_filter_len, Seq::lemma_filter_pred;

}

/// The multiset of a filter plus the multiset of its complement filter is
/// the multiset of the whole.
pub proof fn lemma_filter_split_multiset<A>(s: Seq<A>, p: spec_fn(A) -> bool)
    ensures
        s.filter(p).to_multiset().add(s.filter(|x: A| !p(x)).to_multiset()) == s.to_multiset(),
    decreases s.len(),
{
    reveal(Seq::filter);
    broadcast use vstd::seq_lib::group_to_multiset_ensures, vstd::multiset::group_multiset_axioms,
        vstd::multiset::lemma_multiset_empty_len;

    let np = |x: A| !p(x);
    if s.len() == 0 {
        assert(s.filter(p).len() == 0);
        assert(s.filter(np).len() == 0);
        assert(s.to_multiset().len() == 0);
        assert(s.filter(p).to_multiset().len() == 0);
        assert(s.filter(np).to_multiset().len() == 0);
        assert(s.to_multiset() =~= vstd::multiset::Multiset::empty());
        assert(s.filter(p).to_multiset() =~= vstd::multiset::Multiset::empty());
        assert(s.filter(np).to_multiset() =~= vstd::multiset::Multiset::empty());
        assert(s.filter(p).to_multiset().add(s.filter(np).to_multiset()) =~= s.to_multiset());
    } else {
        let d = s.drop_last();
        lemma_filter_split_multiset(d, p);
        assert(s =~= d.push(s.last()));
        assert(s.to_multiset() == d.to_multiset().insert(s.last()));
        if p(s.last()) {
            assert(s.filter(p) == d.filter(p).push(s.last()));
            assert(s.filter(np) == d.filter(np));
        } else {
            assert(s.filter(p) == d.filter(p));
            assert(s.filter(np) == d.filter(np).push(s.last()));
        }
        assert(s.filter(p).to_multiset().add(s.filter(np).to_multiset()) =~= s.to_multiset());
    }
}

} // verus!

verus! {

/// Keeping every element leaves a sequence unchanged.
pub proof fn lemma_filter_all_kept<A>(s: Seq<A>)
    ensures
        s.filter(|x: A| true) == s,
    decreases s.len(),
{
    reveal(Seq::filter);
    if s.len() > 0 {
        lemma_filter_all_kept(s.drop_last());
        assert(s.drop_last().push(s.last()) =~= s);
    }
}

} // verus!

verus! {

/// The indices `i < n` with `keep(i)`, in ascending order.
pub open spec fn indices_where(n: int, keep: spec_fn(int) -> bool) -> Seq<usize>
    decreases n,
{
    if n <= 0 {
        Seq::empty()
    } else {
        let p = indices_where(n - 1, keep);
        if keep(n - 1) {
            p.push((n - 1) as usize)
        } else {
            p
        }
    }
}

/// The indices listed are below `n`, kept, and ascending, and there are at
/// most `n` of them.
pub proof fn lemma_indices_where_facts(n: int, keep: spec_fn(int) -> bool)
    requires
        n <= usize::MAX + 1,
    ensures
        indices_where(n, keep).len() <= (if n < 0 { 0 } else { n }),
        forall|k: int|
            0 <= k < indices_where(n, keep).len() ==> (#[trigger] indices_where(n, keep)[k]) < n
                && keep(indices_where(n, keep)[k] as int),
        forall|a: int, b: int|
            0 <= a < b < indices_where(n, keep).len() ==> indices_where(n, keep)[a]
                < indices_where(n, keep)[b],
    decreases n,
{
    if n > 0 {
        lemma_indices_where_facts(n - 1, keep);
    }
}

/// The indices below `i` form the front of the indices below `n`, and a kept
/// index `i < n` sits right after them.
pub proof fn lemma_indices_where_prefix(i: int, n: int, keep: spec_fn(int) -> bool)
    requires
        0 <= i <= n,
        n <= usize::MAX + 1,
    ensures
        indices_where(i, keep).len() <= indices_where(n, keep).len(),
        indices_where(n, keep).take(indices_where(i, keep).len() as int) == indices_where(i, keep),
        i < n && keep(i) ==> indices_where(n, keep).len() > indices_where(i, keep).len()
            && indices_where(n, keep)[indices_where(i, keep).len() as int] == i,
    decreases n - i,
{
    if i < n {
        lemma_indices_where_prefix(i, n - 1, keep);
        let a = indices_where(i, keep);
        let b = indices_where(n - 1, keep);
        assert(indices_where(n, keep).take(b.len() as int) =~= b);
        assert(indices_where(n, keep).take(a.len() as int) =~= b.take(a.len() as int));
        if i == n - 1 && keep(i) {
            assert(b =~= a);
        }
        if i < n - 1 && keep(i) {
            assert(indices_where(n, keep)[a.len() as int] == b[a.len() as int]);
        }
    } else {
        assert(indices_where(n, keep).take(indices_where(i, keep).len() as int) =~= indices_where(
            i,
            keep,
        ));
    }
}

/// Every kept index below `n` is listed.
pub proof fn lemma_indices_where_complete(i: int, n: int, keep: spec_fn(int) -> bool)
    requires
        0 <= i < n,
        n <= usize::MAX + 1,
        keep(i),
    ensures
        indices_where(n, keep).contains(i as usize),
{
    lemma_indices_where_prefix(i, n, keep);
}

} // verus!
