//! Sequences of values that are spoken of by what they hold.

use vstd::prelude::*;

verus! {

/// What each item of `items` holds, one for one.
pub open spec fn views_of<T: View>(items: Seq<T>) -> Seq<T::V> {
    Seq::new(items.len(), |i: int| items[i]@)
}

/// One more item adds its view at the end.
pub proof fn lemma_views_of_push<T: View>(items: Seq<T>, item: T)
    ensures
        views_of(items.push(item)) == views_of(items).push(item@),
{
    assert(views_of(items.push(item)) =~= views_of(items).push(item@));
}

} // verus!
