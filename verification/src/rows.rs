//! Facts about filtering and mapping the rows of a table.

use crate::gateway::first_row;
use vstd::prelude::*;

verus! {

/// Filtering after one more row either keeps that row at the end or drops it.
pub proof fn lemma_filter_push<A>(s: Seq<A>, x: A, p: spec_fn(A) -> bool)
    ensures
        s.push(x).filter(p) == if p(x) {
            s.filter(p).push(x)
        } else {
            s.filter(p)
        },
{
    reveal(Seq::filter);
    assert(s.push(x).drop_last() =~= s);
    assert(s.push(x).last() == x);
}

/// The filter of no rows is empty.
pub proof fn lemma_filter_empty<A>(p: spec_fn(A) -> bool)
    ensures
        Seq::<A>::empty().filter(p) == Seq::<A>::empty(),
{
    reveal(Seq::filter);
}

/// A row is in the filter exactly if it is in the table and passes.
pub proof fn lemma_filter_contains<A>(s: Seq<A>, p: spec_fn(A) -> bool, x: A)
    ensures
        s.filter(p).contains(x) <==> s.contains(x) && p(x),
    decreases s.len(),
{
    if s.len() == 0 {
        lemma_filter_empty(p);
        assert(s =~= Seq::<A>::empty());
    } else {
        let init = s.drop_last();
        let last = s.last();
        assert(s =~= init.push(last));
        lemma_filter_push(init, last, p);
        lemma_filter_contains(init, p, x);
        let f = s.filter(p);
        if f.contains(x) {
            let i = choose|i: int| 0 <= i < f.len() && f[i] == x;
            if p(last) && i == f.len() - 1 {
                assert(s[s.len() - 1] == x);
            } else {
                assert(init.filter(p)[i] == x);
                assert(init.filter(p).contains(x));
                let j = choose|j: int| 0 <= j < init.len() && init[j] == x;
                assert(s[j] == x);
            }
        }
        if s.contains(x) && p(x) {
            let j = choose|j: int| 0 <= j < s.len() && s[j] == x;
            if j == s.len() - 1 {
                assert(f[f.len() - 1] == x);
            } else {
                assert(init[j] == x);
                assert(init.contains(x));
                let i = choose|i: int| 0 <= i < init.filter(p).len() && init.filter(p)[i] == x;
                assert(f[i] == x);
            }
        }
    }
}

/// Where no row passes, the filter is empty.
pub proof fn lemma_filter_none<A>(s: Seq<A>, p: spec_fn(A) -> bool)
    requires
        forall|i: int| 0 <= i < s.len() ==> !p(#[trigger] s[i]),
    ensures
        s.filter(p).len() == 0,
{
    let f = s.filter(p);
    if f.len() > 0 {
        lemma_filter_contains(s, p, f[0]);
        assert(f.contains(f[0]));
    }
}

/// The first row of the filter is the first row of the table that passes.
pub proof fn lemma_filter_first<A>(s: Seq<A>, p: spec_fn(A) -> bool, i: int)
    requires
        0 <= i < s.len(),
        p(s[i]),
        forall|j: int| 0 <= j < i ==> !p(#[trigger] s[j]),
    ensures
        first_row(s.filter(p)) == Some(s[i]),
{
    let head = s.take(i);
    let tail = s.skip(i + 1);
    assert(s =~= head.push(s[i]) + tail);
    lemma_filter_none(head, p);
    lemma_filter_push(head, s[i], p);
    Seq::filter_distributes_over_add(head.push(s[i]), tail, p);
    assert(head.filter(p) =~= Seq::<A>::empty());
    assert(head.push(s[i]).filter(p)[0] == s[i]);
}

/// A map that leaves the test alone commutes with the filter.
pub proof fn lemma_filter_map<A>(s: Seq<A>, p: spec_fn(A) -> bool, f: spec_fn(A) -> A)
    requires
        forall|a: A| p(#[trigger] f(a)) == p(a),
    ensures
        s.map_values(f).filter(p) == s.filter(p).map_values(f),
    decreases s.len(),
{
    if s.len() == 0 {
        lemma_filter_empty(p);
        assert(s =~= Seq::<A>::empty());
        assert(s.map_values(f) =~= Seq::<A>::empty());
        assert(Seq::<A>::empty().map_values(f) =~= Seq::<A>::empty());
    } else {
        let init = s.drop_last();
        let last = s.last();
        assert(s =~= init.push(last));
        assert(s.map_values(f) =~= init.map_values(f).push(f(last)));
        lemma_filter_push(init, last, p);
        lemma_filter_push(init.map_values(f), f(last), p);
        lemma_filter_map(init, p, f);
        if p(last) {
            assert(init.filter(p).push(last).map_values(f) =~= init.filter(p).map_values(f).push(
                f(last),
            ));
        }
    }
}

/// Two filters give the same rows in either order.
pub proof fn lemma_filter_commutes<A>(s: Seq<A>, p: spec_fn(A) -> bool, q: spec_fn(A) -> bool)
    ensures
        s.filter(p).filter(q) == s.filter(q).filter(p),
    decreases s.len(),
{
    if s.len() == 0 {
        lemma_filter_empty(p);
        lemma_filter_empty(q);
        assert(s =~= Seq::<A>::empty());
    } else {
        let init = s.drop_last();
        let last = s.last();
        assert(s =~= init.push(last));
        lemma_filter_push(init, last, p);
        lemma_filter_push(init, last, q);
        lemma_filter_push(init.filter(p), last, q);
        lemma_filter_push(init.filter(q), last, p);
        lemma_filter_commutes(init, p, q);
    }
}

/// The rows of a filter come from the table in the table's order: each has
/// a source index, and the source indices increase.
pub proof fn lemma_filter_sources<A>(s: Seq<A>, p: spec_fn(A) -> bool) -> (src: Seq<int>)
    ensures
        src.len() == s.filter(p).len(),
        forall|k: int| 0 <= k < src.len() ==> 0 <= #[trigger] src[k] < s.len(),
        forall|k: int| 0 <= k < src.len() ==> s.filter(p)[k] == s[#[trigger] src[k]],
        forall|k: int, l: int| 0 <= k < l < src.len() ==> #[trigger] src[k] < #[trigger] src[l],
    decreases s.len(),
{
    if s.len() == 0 {
        lemma_filter_empty(p);
        assert(s =~= Seq::<A>::empty());
        Seq::empty()
    } else {
        let init = s.drop_last();
        let last = s.last();
        assert(s =~= init.push(last));
        lemma_filter_push(init, last, p);
        let src0 = lemma_filter_sources(init, p);
        if p(last) {
            src0.push(s.len() - 1)
        } else {
            src0
        }
    }
}

} // verus!
