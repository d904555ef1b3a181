//! Views of containers whose elements have views of their own.
use vstd::prelude::*;

verus! {

/// The view of an optional value: `None`, or the view of the value.
pub open spec fn opt_view<T: View>(o: Option<T>) -> Option<T::V> {
    match o {
        Some(v) => Some(v@),
        None => None,
    }
}

/// The sequence of the views of the elements of `v`.
pub open spec fn seq_view<T: View>(v: Seq<T>) -> Seq<T::V> {
    v.map_values(|x: T| x@)
}

} // verus!
