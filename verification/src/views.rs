//! Views of collections of the library's values.

use vstd::prelude::*;

verus! {

/// The views of the items of `items`, in order.
pub open spec fn views_of<T: View>(items: Seq<T>) -> Seq<T::V> {
    Seq::new(items.len(), |i: int| items[i]@)
}

} // verus!

verus! {

/// The view of what an `Option` holds.
pub open spec fn option_view<T: View>(value: Option<T>) -> Option<T::V> {
    match value {
        Some(inner) => Some(inner@),
        None => None,
    }
}

/// The views of the items that an `Option` of a vector holds.
pub open spec fn option_views<T: View>(value: Option<Vec<T>>) -> Option<Seq<T::V>> {
    match value {
        Some(items) => Some(views_of(items@)),
        None => None,
    }
}

} // verus!

verus! {

/// The view of what a `Result` holds, on either side.
pub open spec fn result_view<T: View, E: View>(value: Result<T, E>) -> Result<T::V, E::V> {
    match value {
        Ok(inner) => Ok(inner@),
        Err(error) => Err(error@),
    }
}

/// The views of the items that a `Result` of a vector holds, or the view of
/// its error.
pub open spec fn result_views<T: View, E: View>(value: Result<Vec<T>, E>) -> Result<
    Seq<T::V>,
    E::V,
> {
    match value {
        Ok(items) => Ok(views_of(items@)),
        Err(error) => Err(error@),
    }
}

} // verus!
