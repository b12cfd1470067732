//! General laws of the combinator surface.
//!
//! Each proof function states a property that relates several operations,
//! over the same spec-level sequences that the operations' own contracts
//! use: its preconditions mirror what those contracts guarantee, and its
//! conclusion is the composed property.

use vstd::prelude::*;

use crate::from::FromIteratorFixed;
use crate::into::IntoIteratorFixed;
use crate::into::Repeat;

verus! {

/// Round trip: converting an array into the wrapper, mapping the identity
/// function over it, and collecting back into an array yields the original
/// array, for every compile-time `N` and every array of `N` values.
///
/// `w` is the view of the converted wrapper, `m` the view after the identity
/// map, `out` the collected array; the preconditions are exactly what the
/// contracts of `into_iter_fixed`, `map` with the identity and `collect`
/// guarantee about them.
pub proof fn lemma_round_trip_identity<T, const N: usize>(
    a: [T; N],
    w: Seq<T>,
    m: Seq<T>,
    out: [T; N],
)
    requires
        w == <[T; N] as IntoIteratorFixed<N>>::fixed_view(a),
        m.len() == w.len(),
        forall|i: int| 0 <= i < w.len() ==> #[trigger] m[i] == w[i],
        <[T; N] as FromIteratorFixed<T, N>>::collected(m, out),
    ensures
        out == a,
{
    broadcast use vstd::array::group_array_axioms;

    assert(m =~= w);
    assert(out@ =~= a@);
}

/// Zipping two sources of equal tagged length `N` and collecting yields an
/// array of length `N` that pairs the elements positionally.
///
/// `sa` and `sb` are the views of the two sources, `z` the view of the
/// zipped wrapper, `out` the collected array; the preconditions are exactly
/// what the contracts of `zip` and `collect` guarantee about them.
pub proof fn lemma_zip_collect<T, U, const N: usize>(
    sa: Seq<T>,
    sb: Seq<U>,
    z: Seq<(T, U)>,
    out: [(T, U); N],
)
    requires
        sa.len() == N,
        sb.len() == N,
        z.len() == N,
        forall|i: int| 0 <= i < N ==> #[trigger] z[i] == (sa[i], sb[i]),
        <[(T, U); N] as FromIteratorFixed<(T, U), N>>::collected(z, out),
    ensures
        out@.len() == N,
        forall|i: int| 0 <= i < N ==> #[trigger] out@[i] == (sa[i], sb[i]),
{
}

/// Zipping a wrapper with a repeated value bounded to the matching length
/// `N` pairs every element with that same value.
///
/// `s` is the view of the first wrapper and `z` the view of the zipped
/// result; the preconditions are exactly what the contract of `zip` with a
/// `Repeat` second argument guarantees about them.
pub proof fn lemma_zip_repeat<T, U: Copy, const N: usize>(s: Seq<T>, v: U, z: Seq<(T, U)>)
    requires
        s.len() == N,
        z.len() == N,
        forall|i: int|
            0 <= i < N ==> #[trigger] z[i] == (s[i], <Repeat<U> as IntoIteratorFixed<N>>::fixed_view(
                Repeat { value: v },
            )[i]),
    ensures
        forall|i: int| 0 <= i < N ==> #[trigger] z[i] == (s[i], v),
{
}

/// A zero-length wrapper is an identity for `chain`, on either side: the
/// concatenation that `chain`'s contract yields is the other operand's
/// elements unchanged.
pub proof fn lemma_chain_empty_identity<T>(s: Seq<T>, e: Seq<T>)
    requires
        e.len() == 0,
    ensures
        s + e == s,
        e + s == s,
{
    assert(s + e =~= s);
    assert(e + s =~= s);
}

/// Collection is deterministic: two arrays collected from the same element
/// sequence are equal.  Together with `collect`'s contract, which owes a
/// result for every wrapper whose invariant holds, collection is a total
/// function of the wrapper's elements.
pub proof fn lemma_collect_deterministic<T, const N: usize>(s: Seq<T>, a: [T; N], b: [T; N])
    requires
        <[T; N] as FromIteratorFixed<T, N>>::collected(s, a),
        <[T; N] as FromIteratorFixed<T, N>>::collected(s, b),
    ensures
        a == b,
{
    broadcast use vstd::array::group_array_axioms;

    assert(a@ =~= b@);
}

} // verus!
