//! Conversion into an [`IteratorFixed`].
//!
//! A type implements [`IntoIteratorFixed`] when its element count is fixed by
//! its type alone: a fixed-size array, a borrowed fixed-size array, a
//! repeated value bounded to a chosen length, or an already tagged wrapper.
//! The conversion's contract ties the wrapper's contents to the spec-level
//! sequence [`IntoIteratorFixed::fixed_view`], so every downstream combinator
//! knows exactly which elements it works on.

use vstd::prelude::*;

use crate::iterator_fixed::IteratorFixed;

verus! {

/// Conversion into an [`IteratorFixed`] of tagged length `N`.
///
/// Implementers fix, at the type level, that the value converts into exactly
/// `N` elements; `fixed_view` says which ones.  The conversion is total: it
/// never fails and never panics.
pub trait IntoIteratorFixed<const N: usize>: Sized {
    /// The type of the elements being iterated over.
    type Item;

    /// The sequence of elements the conversion yields, in order.
    spec fn fixed_view(self) -> Seq<Self::Item>;

    /// Creates a fixed size iterator from a value.
    ///
    /// The result holds exactly the `N` elements of `fixed_view`, in order.
    fn into_iter_fixed(self) -> (r: IteratorFixed<Self::Item, N>)
        ensures
            r@ == self.fixed_view(),
            r@.len() == N,
    ;
}

impl<T, const N: usize> IntoIteratorFixed<N> for IteratorFixed<T, N> {
    type Item = T;

    open spec fn fixed_view(self) -> Seq<T> {
        self@
    }

    /// `IteratorFixed` converts into itself as a no op.  This allows passing
    /// an `IteratorFixed` where an `IntoIteratorFixed` was expected, for
    /// example as the second argument of `zip` or `chain`.
    fn into_iter_fixed(self) -> (r: IteratorFixed<T, N>) {
        proof {
            use_type_invariant(&self);
        }
        self
    }
}

/// Relies on std's `From<[T; N]> for Vec<T>`: the vector holds the array's
/// elements, in order.
#[verifier::external_body]
fn array_to_vec<T, const N: usize>(a: [T; N]) -> (r: Vec<T>)
    ensures
        r@ == a@,
{
    Vec::from(a)
}

impl<T, const N: usize> IntoIteratorFixed<N> for [T; N] {
    type Item = T;

    open spec fn fixed_view(self) -> Seq<T> {
        self@
    }

    /// Creates a fixed size iterator from an array: an array of size `N`
    /// always yields its `N` elements in order.
    fn into_iter_fixed(self) -> (r: IteratorFixed<T, N>) {
        IteratorFixed::from_vec(array_to_vec(self))
    }
}

impl<'a, T, const N: usize> IntoIteratorFixed<N> for &'a [T; N] {
    type Item = &'a T;

    open spec fn fixed_view(self) -> Seq<&'a T> {
        Seq::new(N as nat, |i: int| &self@[i])
    }

    /// Creates a fixed size iterator from a borrowed array: it yields a
    /// reference to each of the `N` elements, in order, while the array
    /// stays with its owner.
    fn into_iter_fixed(self) -> (r: IteratorFixed<&'a T, N>) {
        let mut refs: Vec<&'a T> = Vec::new();
        let mut i: usize = 0;
        while i < N
            invariant
                i <= N,
                refs@.len() == i,
                forall|j: int| 0 <= j < i ==> refs@[j] == (&self@[j]),
            decreases N - i,
        {
            refs.push(vstd::array::array_index_get(self, i));
            i += 1;
        }
        proof {
            assert(refs@ =~= <&'a [T; N] as IntoIteratorFixed<N>>::fixed_view(self));
        }
        IteratorFixed::from_vec(refs)
    }
}

/// A value repeated without bound: an infinite source awaiting a length tag.
///
/// On its own a `Repeat` has no element count; converting it through
/// [`IntoIteratorFixed`] bounds it to the chosen compile-time length `N`,
/// yielding `N` copies of the value.
pub struct Repeat<T> {
    /// The value every yielded element is a copy of.
    pub value: T,
}

/// Creates a new repeated-value source holding `value`.
pub fn repeat<T>(value: T) -> (r: Repeat<T>)
    ensures
        r.value == value,
{
    Repeat { value }
}

impl<T: Copy, const N: usize> IntoIteratorFixed<N> for Repeat<T> {
    type Item = T;

    open spec fn fixed_view(self) -> Seq<T> {
        Seq::new(N as nat, |i: int| self.value)
    }

    /// Creates a fixed size iterator from a repeated value: bounding the
    /// infinite source to length `N` yields exactly `N` copies of the value.
    fn into_iter_fixed(self) -> (r: IteratorFixed<T, N>) {
        let mut copies: Vec<T> = Vec::new();
        let mut i: usize = 0;
        while i < N
            invariant
                i <= N,
                copies@.len() == i,
                forall|j: int| 0 <= j < i ==> copies@[j] == self.value,
            decreases N - i,
        {
            copies.push(self.value);
            i += 1;
        }
        proof {
            assert(copies@ =~= <Repeat<T> as IntoIteratorFixed<N>>::fixed_view(self));
        }
        IteratorFixed::from_vec(copies)
    }
}

} // verus!
