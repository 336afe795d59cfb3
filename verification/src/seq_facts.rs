//! Facts about filtered and shortened sequences that the store relies on.

use vstd::prelude::*;

verus! {

/// Filtering keeps keys distinct.
pub proof fn lemma_filter_keeps_distinct<A, K>(
    s: Seq<A>,
    pred: spec_fn(A) -> bool,
    key: spec_fn(A) -> K,
)
    requires
        forall|i: int, j: int| 0 <= i < j < s.len() ==> key(s[i]) != key(s[j]),
    ensures
        forall|i: int, j: int|
            0 <= i < j < s.filter(pred).len() ==> key(s.filter(pred)[i]) != key(s.filter(pred)[j]),
    decreases s.len(),
{
    reveal(Seq::filter);
    if s.len() > 0 {
        let rest = s.drop_last();
        let last = s.last();
        assert forall|i: int, j: int| 0 <= i < j < rest.len() implies key(rest[i]) != key(
            rest[j],
        ) by {
            assert(rest[i] == s[i] && rest[j] == s[j]);
        }
        lemma_filter_keeps_distinct(rest, pred, key);
        let sub = rest.filter(pred);
        let out = s.filter(pred);
        if pred(last) {
            assert(out == sub.push(last));
            assert forall|i: int, j: int| 0 <= i < j < out.len() implies key(out[i]) != key(
                out[j],
            ) by {
                if j == sub.len() {
                    assert(sub.contains(sub[i]));
                    rest.lemma_filter_contains_rev(pred, sub[i]);
                    let m = choose|m: int| 0 <= m < rest.len() && rest[m] == sub[i];
                    assert(s[m] == sub[i]);
                    assert(key(s[m]) != key(s[s.len() - 1]));
                } else {
                    assert(out[i] == sub[i] && out[j] == sub[j]);
                }
            }
        } else {
            assert(out == sub);
        }
    }
}

/// A filter keeps exactly the elements that satisfy the predicate.
pub proof fn lemma_filter_members<A>(s: Seq<A>, pred: spec_fn(A) -> bool)
    ensures
        forall|i: int| 0 <= i < s.filter(pred).len() ==> pred(#[trigger] s.filter(pred)[i]),
        forall|e: A| #[trigger] s.filter(pred).contains(e) <==> s.contains(e) && pred(e),
{
    assert forall|i: int| 0 <= i < s.filter(pred).len() implies pred(
        #[trigger] s.filter(pred)[i],
    ) by {
        s.lemma_filter_pred(pred, i);
    }
    assert forall|e: A| #[trigger] s.filter(pred).contains(e) <==> s.contains(e) && pred(e) by {
        if s.filter(pred).contains(e) {
            s.lemma_filter_contains_rev(pred, e);
            let i = choose|i: int| 0 <= i < s.filter(pred).len() && s.filter(pred)[i] == e;
            s.lemma_filter_pred(pred, i);
        }
        if s.contains(e) && pred(e) {
            let i = choose|i: int| 0 <= i < s.len() && s[i] == e;
            s.lemma_filter_contains(pred, i);
        }
    }
}

/// A filter that every element passes changes nothing.
pub proof fn lemma_filter_all<A>(s: Seq<A>, pred: spec_fn(A) -> bool)
    requires
        forall|i: int| 0 <= i < s.len() ==> pred(#[trigger] s[i]),
    ensures
        s.filter(pred) == s,
    decreases s.len(),
{
    reveal(Seq::filter);
    if s.len() > 0 {
        let rest = s.drop_last();
        assert forall|i: int| 0 <= i < rest.len() implies pred(#[trigger] rest[i]) by {
            assert(rest[i] == s[i]);
        }
        lemma_filter_all(rest, pred);
        assert(rest.push(s.last()) =~= s);
    }
}

} // verus!
