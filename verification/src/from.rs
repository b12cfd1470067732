//! Collection of an [`IteratorFixed`] into a fixed-capacity container.
//!
//! A type implements [`FromIteratorFixed`] when it can absorb exactly the
//! `N` elements of a tagged wrapper.  Because the wrapper's invariant
//! guarantees the count, the collection is total: it never fails, never
//! truncates and never pads.

use vstd::prelude::*;

use crate::iterator_fixed::IteratorFixed;

verus! {

/// Collection of a tagged wrapper of length `N` into `Self`.
///
/// `collected(s, r)` says what it means for `r` to hold exactly the
/// elements `s`, in order; `from_iter_fixed` produces such an `r` for every
/// wrapper, with no fallible or partial path.
pub trait FromIteratorFixed<T, const N: usize>: Sized {
    /// Holds when `r` is the collection of the element sequence `s`.
    spec fn collected(s: Seq<T>, r: Self) -> bool;

    /// Collects the `N` elements of the wrapper into a new container.
    fn from_iter_fixed(it: IteratorFixed<T, N>) -> (r: Self)
        ensures
            Self::collected(it@, r),
    ;
}

/// Relies on std's `TryFrom<Vec<T>> for [T; N]`: the conversion succeeds
/// exactly when the vector's length is `N`, moving the elements across in
/// order.
#[verifier::external_body]
fn vec_to_array<T, const N: usize>(v: Vec<T>) -> (r: [T; N])
    requires
        v@.len() == N,
    ensures
        r@ == v@,
{
    <[T; N]>::try_from(v).ok().unwrap()
}

impl<T, const N: usize> FromIteratorFixed<T, N> for [T; N] {
    open spec fn collected(s: Seq<T>, r: Self) -> bool {
        r@ == s
    }

    /// Collects the wrapper into an array of size `N`: the wrapper's
    /// invariant supplies exactly the `N` elements the array needs.
    fn from_iter_fixed(it: IteratorFixed<T, N>) -> (r: Self) {
        vec_to_array(it.into_vec())
    }
}

impl<T, const N: usize> FromIteratorFixed<T, N> for Vec<T> {
    open spec fn collected(s: Seq<T>, r: Self) -> bool {
        r@ == s
    }

    /// Collects the wrapper into a vector holding its `N` elements.
    fn from_iter_fixed(it: IteratorFixed<T, N>) -> (r: Self) {
        it.into_vec()
    }
}

} // verus!
