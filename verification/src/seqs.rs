//! Sequences put through a partial function.

use vstd::prelude::*;

verus! {

/// The values that `f` gives, in order, without the elements for which it gives none.
pub open spec fn filter_map<A, B>(s: Seq<A>, f: spec_fn(A) -> Option<B>) -> Seq<B>
    decreases s.len(),
{
    if s.len() == 0 {
        Seq::empty()
    } else {
        let before = filter_map(s.drop_last(), f);
        match f(s.last()) {
            Some(b) => before.push(b),
            None => before,
        }
    }
}

/// One more element, one more value or none.
pub proof fn lemma_filter_map_step<A, B>(s: Seq<A>, f: spec_fn(A) -> Option<B>, i: int)
    requires
        0 <= i < s.len(),
    ensures
        filter_map(s.take(i + 1), f) == (match f(s[i]) {
            Some(b) => filter_map(s.take(i), f).push(b),
            None => filter_map(s.take(i), f),
        }),
{
    assert(s.take(i + 1).drop_last() =~= s.take(i));
    assert(s.take(i + 1).last() == s[i]);
}

/// Every value comes from an element.
pub proof fn lemma_filter_map_source<A, B>(s: Seq<A>, f: spec_fn(A) -> Option<B>, k: int)
    requires
        0 <= k < filter_map(s, f).len(),
    ensures
        exists|i: int| 0 <= i < s.len() && #[trigger] f(s[i]) == Some(filter_map(s, f)[k]),
    decreases s.len(),
{
    if s.len() > 0 {
        let before = filter_map(s.drop_last(), f);
        if k < before.len() {
            lemma_filter_map_source(s.drop_last(), f, k);
            let i = choose|i: int|
                0 <= i < s.drop_last().len() && #[trigger] f(s.drop_last()[i]) == Some(before[k]);
            assert(f(s[i]) == Some(filter_map(s, f)[k]));
        } else {
            assert(f(s[s.len() - 1]) == Some(filter_map(s, f)[k]));
        }
    }
}

/// What is given of two sequences put together is what is given of each, put together.
pub proof fn lemma_filter_map_add<A, B>(a: Seq<A>, b: Seq<A>, f: spec_fn(A) -> Option<B>)
    ensures
        filter_map(a + b, f) == filter_map(a, f) + filter_map(b, f),
    decreases b.len(),
{
    if b.len() == 0 {
        assert(a + b =~= a);
    } else {
        assert((a + b).drop_last() =~= a + b.drop_last());
        lemma_filter_map_add(a, b.drop_last(), f);
    }
}

/// The elements that give a value are the ones that stay, in order, each as its value.
pub proof fn law_filter_map_keeps_what_is_given<A, B>(s: Seq<A>, f: spec_fn(A) -> Option<B>)
    ensures
        filter_map(s, f).len() == s.filter(|a: A| f(a) is Some).len(),
        forall|k: int|
            0 <= k < filter_map(s, f).len() ==> #[trigger] filter_map(s, f)[k] == f(
                s.filter(|a: A| f(a) is Some)[k],
            )->0 && f(s.filter(|a: A| f(a) is Some)[k]) is Some,
    decreases s.len(),
{
    reveal(Seq::filter);
    if s.len() > 0 {
        law_filter_map_keeps_what_is_given(s.drop_last(), f);
    }
}

/// An element that gives a value stands, as that value, behind as many others as there are
/// elements before it that give one.
pub proof fn law_filter_map_keeps_the_order<A, B>(s: Seq<A>, f: spec_fn(A) -> Option<B>, i: int)
    requires
        0 <= i < s.len(),
        f(s[i]) is Some,
    ensures
        s.take(i).filter(|a: A| f(a) is Some).len() < filter_map(s, f).len(),
        filter_map(s, f)[s.take(i).filter(|a: A| f(a) is Some).len() as int] == f(s[i])->0,
{
    law_filter_map_keeps_what_is_given(s.take(i), f);
    lemma_filter_map_step(s, f, i);
    lemma_filter_map_add(s.take(i + 1), s.skip(i + 1), f);
    assert(s.take(i + 1) + s.skip(i + 1) =~= s);
}

} // verus!
