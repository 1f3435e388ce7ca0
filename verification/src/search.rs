//! Finding the first element of a sequence that has a property.

use vstd::prelude::*;

verus! {

/// The index of the first element that has the property, or the length of
/// the sequence if none has it.
pub open spec fn first_where<T>(s: Seq<T>, property: spec_fn(T) -> bool) -> int
    decreases s.len(),
{
    if s.len() == 0 {
        0
    } else if property(s[0]) {
        0
    } else {
        1 + first_where(s.drop_first(), property)
    }
}

/// `first_where` is an index at which the property holds, unless it is the
/// length, and before which it holds nowhere.
pub proof fn lemma_first_where<T>(s: Seq<T>, property: spec_fn(T) -> bool)
    ensures
        0 <= first_where(s, property) <= s.len(),
        forall|j: int| 0 <= j < first_where(s, property) ==> !property(#[trigger] s[j]),
        first_where(s, property) < s.len() ==> property(s[first_where(s, property)]),
    decreases s.len(),
{
    if s.len() > 0 && !property(s[0]) {
        let rest = s.drop_first();
        lemma_first_where(rest, property);
        assert forall|j: int| 0 <= j < first_where(s, property) implies !property(
            #[trigger] s[j],
        ) by {
            if j > 0 {
                assert(s[j] == rest[j - 1]);
            }
        }
    }
}

/// An index with the two properties of `lemma_first_where` is `first_where`.
pub proof fn lemma_first_where_unique<T>(s: Seq<T>, property: spec_fn(T) -> bool, k: int)
    requires
        0 <= k <= s.len(),
        forall|j: int| 0 <= j < k ==> !property(#[trigger] s[j]),
        k < s.len() ==> property(s[k]),
    ensures
        first_where(s, property) == k,
{
    lemma_first_where(s, property);
    let r = first_where(s, property);
    if r < k {
        assert(!property(s[r]));
    } else if k < r {
        assert(!property(s[k]));
    }
}

} // verus!
