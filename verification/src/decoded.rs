//! What a decoder yields, and how the lists of it are put together.

use crate::error::FieldError;
use vstd::prelude::*;

verus! {

/// What a decoder makes of a buffer from an offset: the value and the offset
/// just past it, or the error.
pub type Decoded<T> = Result<(T, u64), FieldError>;

/// The views of the items of a list, in their order.
pub open spec fn views<T: View>(items: Seq<T>) -> Seq<T::V> {
    items.map_values(|item: T| item@)
}

/// A list that begins with `done` and goes on as `rest` says.
pub open spec fn prepend<T>(done: Seq<T>, rest: Decoded<Seq<T>>) -> Decoded<Seq<T>> {
    match rest {
        Ok((items, end)) => Ok((done + items, end)),
        Err(e) => Err(e),
    }
}

/// To prepend nothing changes nothing.
pub proof fn lemma_prepend_nothing<T>(rest: Decoded<Seq<T>>)
    ensures
        prepend(Seq::empty(), rest) == rest,
{
    if let Ok((items, end)) = rest {
        assert(Seq::<T>::empty() + items =~= items);
    }
}

/// A list that ends where it stands is the items that are done.
pub proof fn lemma_prepend_end<T>(done: Seq<T>, end: u64)
    ensures
        prepend(done, Ok((Seq::empty(), end))) == Ok::<(Seq<T>, u64), FieldError>((done, end)),
{
    assert(done + Seq::<T>::empty() =~= done);
}

/// The first item of the rest may as well be the last of what is done.
pub proof fn lemma_prepend_first<T>(done: Seq<T>, first: T, rest: Decoded<Seq<T>>)
    ensures
        prepend(done, prepend(seq![first], rest)) == prepend(done.push(first), rest),
{
    if let Ok((items, end)) = rest {
        assert(done + (seq![first] + items) =~= done.push(first) + items);
    }
}

/// The views of a list with one more item.
pub proof fn lemma_views_push<T: View>(items: Seq<T>, last: T)
    ensures
        views(items.push(last)) == views(items).push(last@),
{
    assert(views(items.push(last)) =~= views(items).push(last@));
}

/// An empty list has no views.
pub proof fn lemma_views_empty<T: View>()
    ensures
        views(Seq::<T>::empty()) == Seq::<T::V>::empty(),
{
    assert(views(Seq::<T>::empty()) =~= Seq::<T::V>::empty());
}

} // verus!
