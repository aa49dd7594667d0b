//! Sequences of models.

use vstd::prelude::*;

verus! {

/// The models of the items of `items`, in the same order.
pub open spec fn views<T: View>(items: Seq<T>) -> Seq<T::V> {
    Seq::new(items.len(), |i: int| items[i]@)
}

/// The model of the item that `item` holds, if it holds one.
pub open spec fn option_view<T: View>(item: Option<T>) -> Option<T::V> {
    match item {
        Some(inner) => Some(inner@),
        None => None,
    }
}

/// Appending an item appends its model.
pub proof fn lemma_views_push<T: View>(items: Seq<T>, item: T)
    ensures
        views(items.push(item)) == views(items).push(item@),
{
    assert(views(items.push(item)) =~= views(items).push(item@));
}

/// The models of a concatenation are the concatenation of the models.
pub proof fn lemma_views_concat<T: View>(left: Seq<T>, right: Seq<T>)
    ensures
        views(left + right) == views(left) + views(right),
{
    assert(views(left + right) =~= views(left) + views(right));
}

} // verus!
