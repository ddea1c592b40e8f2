//! Laws the core obeys, stated and proved once for all inputs:
//! narrowing a filter never adds matches, selection moves wrap cleanly,
//! and a stored payload turns the next cache resolution into a hit.
use vstd::prelude::*;

use crate::app::{
    has_substring, is_filter_of, iter_next, match_at, next_position, prev_position, AppState,
};
use crate::model::Header;

verus! {

/// Substring containment is transitive: whatever contains the wider
/// text also contains any text the wider text contains.
pub proof fn lemma_substring_trans(v: Seq<char>, t2: Seq<char>, t1: Seq<char>)
    requires
        has_substring(v, t2),
        has_substring(t2, t1),
    ensures
        has_substring(v, t1),
{
    let i = choose|i: int| match_at(v, t2, i);
    let j = choose|j: int| match_at(t2, t1, j);
    assert(v.subrange(i + j, i + j + t1.len() as int) =~= t1) by {
        assert forall|k: int| 0 <= k < t1.len() implies v[i + j + k] == t1[k] by {
            assert(t2.subrange(j, j + t1.len() as int)[k] == t2[j + k]);
            assert(v.subrange(i, i + t2.len() as int)[j + k] == v[i + j + k]);
        }
    }
    assert(match_at(v, t1, i + j));
}

/// Narrowing the filter never adds matches: when the new filter text
/// itself contains the old one, every position of the new filtered view
/// already stands in the old one.
pub proof fn lemma_filter_narrows(
    view1: Seq<usize>,
    view2: Seq<usize>,
    items: Seq<Header>,
    t1: Seq<char>,
    t2: Seq<char>,
)
    requires
        is_filter_of(view1, items, t1),
        is_filter_of(view2, items, t2),
        has_substring(t2, t1),
    ensures
        forall|k: int| 0 <= k < view2.len() ==> view1.contains(#[trigger] view2[k]),
{
    assert forall|k: int| 0 <= k < view2.len() implies view1.contains(view2[k]) by {
        let i = view2[k] as int;
        lemma_substring_trans(items[i].name@, t2, t1);
        assert(view1.contains(i as usize));
        assert(view2[k] == i as usize);
    }
}

/// Moving the selection down and then up returns it to where it stood,
/// from any valid position of a non-empty view.
pub proof fn lemma_next_then_previous(p: int, len: int)
    requires
        0 <= p < len,
    ensures
        prev_position(next_position(p, len), len) == p,
{
}

/// Where `k` successive moves down land: the start advanced by `k`,
/// reduced once it wraps past the end.
proof fn lemma_iter_next_shape(p: int, len: int, k: nat)
    requires
        0 <= p < len,
        k <= len,
    ensures
        iter_next(p, len, k) == (if p + k < len {
            p + k
        } else {
            p + k - len
        }),
    decreases k,
{
    if k > 0 {
        lemma_iter_next_shape(p, len, (k - 1) as nat);
    }
}

/// A full lap of moves down returns the selection to its start: as many
/// moves as the view has entries, from any valid position.
pub proof fn lemma_full_cycle(p: int, len: int)
    requires
        0 <= p < len,
    ensures
        iter_next(p, len, len as nat) == p,
{
    lemma_iter_next_shape(p, len, len as nat);
}

/// Once the payload owed for the current selection is stored, resolving
/// again with unchanged selection and records is a cache hit, so a
/// second resolution in a row fetches nothing.
pub proof fn lemma_second_resolve_hits(s: AppState, payload: String)
    requires
        s.filtered_indexes@.len() > 0,
    ensures
        (AppState { cached: Some((s.target_id(), payload)), ..s }).cache_hit(),
{
}

} // verus!
