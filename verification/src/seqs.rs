//! Lemmas on filtered sequences.

use vstd::prelude::*;

verus! {

/// Filtering a prefix one element longer.
pub proof fn lemma_filter_take_step<A>(s: Seq<A>, p: spec_fn(A) -> bool, i: int)
    requires
        0 <= i < s.len(),
    ensures
        s.take(i + 1).filter(p) == if p(s[i]) {
            s.take(i).filter(p).push(s[i])
        } else {
            s.take(i).filter(p)
        },
{
    assert(s.take(i + 1) =~= s.take(i).push(s[i]));
    s.take(i).lemma_filter_push(s[i], p);
}

/// The first element kept by a filter.
pub proof fn lemma_first_of_filter<A>(s: Seq<A>, p: spec_fn(A) -> bool, i: int)
    requires
        0 <= i < s.len(),
        s.take(i).filter(p).len() == 0,
        p(s[i]),
    ensures
        s.filter(p).len() > 0,
        s.filter(p)[0] == s[i],
{
    lemma_filter_take_step(s, p, i);
    assert(s =~= s.take(i + 1) + s.skip(i + 1));
    Seq::filter_distributes_over_add(s.take(i + 1), s.skip(i + 1), p);
    assert(s.take(i + 1).filter(p) =~= seq![s[i]]);
}

/// Filtering all of a sequence.
pub proof fn lemma_filter_take_all<A>(s: Seq<A>, p: spec_fn(A) -> bool)
    ensures
        s.take(s.len() as int).filter(p) == s.filter(p),
{
    assert(s.take(s.len() as int) =~= s);
}

/// A filter keeps nothing exactly when nothing satisfies the predicate.
pub proof fn lemma_filter_empty_iff<A>(s: Seq<A>, p: spec_fn(A) -> bool)
    ensures
        s.filter(p).len() == 0 <==> forall|i: int| 0 <= i < s.len() ==> !p(#[trigger] s[i]),
{
    broadcast use vstd::seq_lib::group_filter_ensures;

    if s.filter(p).len() == 0 {
        assert forall|i: int| 0 <= i < s.len() implies !p(#[trigger] s[i]) by {
            if p(s[i]) {
                s.lemma_filter_contains(p, i);
            }
        }
    } else {
        let x = s.filter(p)[0];
        s.lemma_filter_pred(p, 0);
        assert(s.filter(p).contains(x));
        s.lemma_filter_contains_rev(p, x);
    }
}

/// Mapping a sequence one element longer.
pub proof fn lemma_map_push<A, B>(s: Seq<A>, x: A, f: spec_fn(A) -> B)
    ensures
        s.push(x).map_values(f) == s.map_values(f).push(f(x)),
{
    assert(s.push(x).map_values(f) =~= s.map_values(f).push(f(x)));
}

/// An element kept by a filter has a property exactly when some element of
/// the sequence passes the filter and has it.
pub proof fn lemma_filter_exists<A>(s: Seq<A>, p: spec_fn(A) -> bool, q: spec_fn(A) -> bool)
    ensures
        (exists|j: int| 0 <= j < s.filter(p).len() && q(#[trigger] s.filter(p)[j])) <==> (exists|i: int|
            0 <= i < s.len() && p(s[i]) && q(#[trigger] s[i])),
{
    broadcast use vstd::seq_lib::group_filter_ensures;

    if exists|j: int| 0 <= j < s.filter(p).len() && q(#[trigger] s.filter(p)[j]) {
        let j = choose|j: int| 0 <= j < s.filter(p).len() && q(#[trigger] s.filter(p)[j]);
        let x = s.filter(p)[j];
        s.lemma_filter_pred(p, j);
        assert(s.filter(p).contains(x));
        s.lemma_filter_contains_rev(p, x);
        let i = choose|i: int| 0 <= i < s.len() && s[i] == x;
        assert(p(s[i]) && q(s[i]));
    }
    if exists|i: int| 0 <= i < s.len() && p(s[i]) && q(#[trigger] s[i]) {
        let i = choose|i: int| 0 <= i < s.len() && p(s[i]) && q(#[trigger] s[i]);
        s.lemma_filter_contains(p, i);
        let j = choose|j: int| 0 <= j < s.filter(p).len() && s.filter(p)[j] == s[i];
        assert(q(s.filter(p)[j]));
    }
}

} // verus!
