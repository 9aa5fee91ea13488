//! The first occurrence of an item in a sequence.
use vstd::prelude::*;

verus! {

/// The index of the first occurrence of `item` at or after `start`.
pub open spec fn find_from<A>(items: Seq<A>, item: A, start: int) -> Option<int>
    decreases items.len() - start,
{
    if start < 0 || start >= items.len() {
        None
    } else if items[start] == item {
        Some(start)
    } else {
        find_from(items, item, start + 1)
    }
}

/// The index of the first occurrence of `item`.
pub open spec fn find<A>(items: Seq<A>, item: A) -> Option<int> {
    find_from(items, item, 0)
}

/// An index that `find_from` gives lies between `start` and the end of the
/// sequence, and holds the item.
pub proof fn lemma_found_in_range<A>(items: Seq<A>, item: A, start: int, position: int)
    requires
        0 <= start,
        find_from(items, item, start) == Some(position),
    ensures
        start <= position < items.len(),
        items[position] == item,
    decreases items.len() - start,
{
    if start < items.len() && items[start] != item {
        lemma_found_in_range(items, item, start + 1, position);
    }
}

/// In a sequence, an item that does not occur between `start` and
/// `position` is first found at `position`.
pub proof fn lemma_find_first<A>(items: Seq<A>, start: int, position: int)
    requires
        0 <= start <= position < items.len(),
        forall|j: int| start <= j < position ==> items[j] != items[position],
    ensures
        find_from(items, items[position], start) == Some(position),
    decreases position - start,
{
    if start < position {
        lemma_find_first(items, start + 1, position);
    }
}

} // verus!
