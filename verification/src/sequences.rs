//! What filtering does to a sequence.

use vstd::prelude::*;

verus! {

/// A filter that every element passes changes nothing.
pub proof fn lemma_filter_all<T>(s: Seq<T>, keep: spec_fn(T) -> bool)
    requires
        forall|i: int| 0 <= i < s.len() ==> keep(#[trigger] s[i]),
    ensures
        s.filter(keep) == s,
    decreases s.len(),
{
    reveal(Seq::filter);
    if s.len() > 0 {
        lemma_filter_all(s.drop_last(), keep);
        assert(s.drop_last().push(s.last()) =~= s);
    }
}

/// A filter that exactly one element passes leaves that element.
pub proof fn lemma_filter_one<T>(s: Seq<T>, keep: spec_fn(T) -> bool, k: int)
    requires
        0 <= k < s.len(),
        forall|i: int| 0 <= i < s.len() ==> (keep(#[trigger] s[i]) <==> i == k),
    ensures
        s.filter(keep) == seq![s[k]],
    decreases s.len(),
{
    reveal(Seq::filter);
    let shorter = s.drop_last();
    if k == s.len() - 1 {
        assert forall|i: int| 0 <= i < shorter.len() implies !keep(#[trigger] shorter[i]) by {
            assert(shorter[i] == s[i]);
        }
        shorter.lemma_all_neg_filter_empty(keep);
        assert(shorter.filter(keep) =~= Seq::<T>::empty());
        assert(s.filter(keep) =~= seq![s[k]]);
    } else {
        assert forall|i: int| 0 <= i < shorter.len() implies (keep(#[trigger] shorter[i]) <==> i
            == k) by {
            assert(shorter[i] == s[i]);
        }
        lemma_filter_one(shorter, keep, k);
        assert(shorter[k] == s[k]);
    }
}

/// What is left after a filter passed it, came from the sequence, and
/// stands in the order it stood in: a relation that held from each element
/// to every later one still does.
pub proof fn lemma_filter_keeps_order<T>(
    s: Seq<T>,
    keep: spec_fn(T) -> bool,
    related: spec_fn(T, T) -> bool,
)
    requires
        forall|i: int, j: int| 0 <= i < j < s.len() ==> related(#[trigger] s[i], #[trigger] s[j]),
    ensures
        forall|i: int, j: int|
            0 <= i < j < s.filter(keep).len() ==> related(
                #[trigger] s.filter(keep)[i],
                #[trigger] s.filter(keep)[j],
            ),
        forall|i: int|
            0 <= i < s.filter(keep).len() ==> keep(#[trigger] s.filter(keep)[i]) && s.contains(
                s.filter(keep)[i],
            ),
    decreases s.len(),
{
    reveal(Seq::filter);
    if s.len() > 0 {
        let shorter = s.drop_last();
        let last = s.last();
        let n = s.len() - 1;
        assert(s[n] == last);
        assert forall|i: int, j: int| 0 <= i < j < shorter.len() implies related(
            #[trigger] shorter[i],
            #[trigger] shorter[j],
        ) by {
            assert(shorter[i] == s[i] && shorter[j] == s[j]);
        }
        lemma_filter_keeps_order(shorter, keep, related);
        let kept = shorter.filter(keep);
        let all = s.filter(keep);
        assert forall|i: int| 0 <= i < kept.len() implies s.contains(#[trigger] kept[i])
            && related(kept[i], last) by {
            assert(shorter.contains(kept[i]));
            let w = choose|w: int| 0 <= w < shorter.len() && shorter[w] == kept[i];
            assert(s[w] == kept[i]);
            assert(related(s[w], s[n]));
        }
        if keep(last) {
            assert(all == kept.push(last));
            assert forall|i: int| 0 <= i < all.len() implies keep(#[trigger] all[i]) && s.contains(
                all[i],
            ) by {
                if i < kept.len() {
                    assert(all[i] == kept[i]);
                }
            }
            assert forall|i: int, j: int| 0 <= i < j < all.len() implies related(
                #[trigger] all[i],
                #[trigger] all[j],
            ) by {
                assert(all[i] == kept[i]);
                if j < kept.len() {
                    assert(all[j] == kept[j]);
                }
            }
        }
    }
}

/// Putting in an element that the filter rejects does not change what the
/// filter leaves.
pub proof fn lemma_filter_insert_rejected<T>(s: Seq<T>, keep: spec_fn(T) -> bool, at: int, x: T)
    requires
        0 <= at <= s.len(),
        !keep(x),
    ensures
        s.insert(at, x).filter(keep) == s.filter(keep),
{
    let front = s.subrange(0, at);
    let back = s.subrange(at, s.len() as int);
    assert(s.insert(at, x) =~= (front + seq![x]) + back);
    assert(s =~= front + back);
    Seq::filter_distributes_over_add(front + seq![x], back, keep);
    Seq::filter_distributes_over_add(front, seq![x], keep);
    Seq::filter_distributes_over_add(front, back, keep);
    seq![x].lemma_all_neg_filter_empty(keep);
    assert(seq![x].filter(keep) =~= Seq::<T>::empty());
    assert(front.filter(keep) + Seq::<T>::empty() =~= front.filter(keep));
}

} // verus!
