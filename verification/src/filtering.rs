//! Facts about keeping some elements of a list and dropping the others.

use vstd::prelude::*;

verus! {

/// An element that the function maps to something is found, mapped, in the
/// filtered list, whatever its neighbours map to.
pub proof fn lemma_filter_map_keeps<A, B>(s: Seq<A>, f: spec_fn(A) -> Option<B>, i: int)
    requires
        0 <= i < s.len(),
        f(s[i]) is Some,
    ensures
        s.filter_map(f).contains(f(s[i])->Some_0),
    decreases s.len(),
{
    let wanted = f(s[i])->Some_0;
    let rest = s.drop_last().filter_map(f);
    if i == s.len() - 1 {
        assert((rest + seq![wanted])[rest.len() as int] == wanted);
    } else {
        lemma_filter_map_keeps(s.drop_last(), f, i);
        let j = choose|j: int| 0 <= j < rest.len() && rest[j] == wanted;
        if f(s.last()) is Some {
            assert((rest + seq![f(s.last())->Some_0])[j] == wanted);
        }
    }
}

/// Each element of the filtered list is what the function maps some element
/// of the list to. The result is the position of such an element.
pub proof fn lemma_filter_map_source<A, B>(s: Seq<A>, f: spec_fn(A) -> Option<B>, j: int) -> (i:
    int)
    requires
        0 <= j < s.filter_map(f).len(),
    ensures
        0 <= i < s.len(),
        f(s[i]) == Some(s.filter_map(f)[j]),
    decreases s.len(),
{
    let rest = s.drop_last().filter_map(f);
    if j < rest.len() {
        lemma_filter_map_source(s.drop_last(), f, j)
    } else {
        s.len() - 1
    }
}

} // verus!
