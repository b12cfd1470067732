//! The length-tagged wrapper and its combinators.

use vstd::prelude::*;

use crate::from::FromIteratorFixed;
use crate::into::IntoIteratorFixed;

verus! {

/// A sequence of elements tagged with a compile-time length `N`.
///
/// The type invariant ties the tag to the data: a value of
/// `IteratorFixed<T, N>` holds exactly `N` elements, so collecting it into a
/// fixed-capacity container of length `N` always succeeds.  Every
/// constructor proves the invariant; every combinator preserves it while
/// deriving the new tag by the arithmetic rule of the operation.
pub struct IteratorFixed<T, const N: usize> {
    pub(crate) elems: Vec<T>,
}

impl<T, const N: usize> View for IteratorFixed<T, N> {
    type V = Seq<T>;

    open(crate) spec fn view(&self) -> Seq<T> {
        self.elems@
    }
}

impl<T, const N: usize> IteratorFixed<T, N> {
    /// The exactness contract: the tagged length is the real length.
    #[verifier::type_invariant]
    pub(crate) open spec fn inv(self) -> bool {
        self.elems@.len() == N
    }

    /// Tags a sequence of elements with its length.
    ///
    /// This is the sole entry point that turns untagged data into a tagged
    /// wrapper; the precondition demands the proof, once, that the data
    /// holds exactly `N` elements.
    pub fn from_vec(elems: Vec<T>) -> (r: IteratorFixed<T, N>)
        requires
            elems@.len() == N,
        ensures
            r@ == elems@,
    {
        IteratorFixed { elems }
    }

    /// The tagged length, which is also the real length.
    pub fn len(&self) -> (r: usize)
        ensures
            r == N,
            r == self@.len(),
    {
        proof {
            use_type_invariant(self);
        }
        self.elems.len()
    }

    /// Gives the elements up as an untagged vector, in order.
    pub fn into_vec(self) -> (r: Vec<T>)
        ensures
            r@ == self@,
            r@.len() == N,
    {
        proof {
            use_type_invariant(&self);
        }
        self.elems
    }

    /// Lends the elements out by reference, so that a derived pipeline can
    /// run while the wrapper stays with its owner.
    pub fn by_ref<'a>(&'a self) -> (r: IteratorFixed<&'a T, N>)
        ensures
            r@.len() == N,
            self@.len() == N,
            forall|i: int| 0 <= i < N ==> #[trigger] r@[i] == &self@[i],
    {
        proof {
            use_type_invariant(self);
        }
        let mut refs: Vec<&'a T> = Vec::new();
        let mut i: usize = 0;
        while i < self.elems.len()
            invariant
                i <= self.elems@.len(),
                self.elems@.len() == N,
                refs@.len() == i,
                forall|j: int| 0 <= j < i ==> #[trigger] refs@[j] == &self@[j],
            decreases self.elems@.len() - i,
        {
            refs.push(&self.elems[i]);
            i += 1;
        }
        IteratorFixed::from_vec(refs)
    }

    /// Calls `f` on a reference to each element, in order, for its side
    /// effect alone: the elements come out unchanged.
    pub fn inspect<F: Fn(&T) -> ()>(self, f: F) -> (r: IteratorFixed<T, N>)
        requires
            forall|i: int| 0 <= i < self@.len() ==> call_requires(f, (&#[trigger] self@[i],)),
        ensures
            r@ == self@,
            self@.len() == N,
    {
        proof {
            use_type_invariant(&self);
        }
        let ghost orig: Seq<T> = self@;
        let mut elems = self.elems;
        let mut out: Vec<T> = Vec::new();
        while elems.len() > 0
            invariant
                out@.len() + elems@.len() == N,
                elems@ == orig.skip(out@.len() as int),
                orig.len() == N,
                forall|j: int| 0 <= j < orig.len() ==> call_requires(f, (&#[trigger] orig[j],)),
                out@ == orig.take(out@.len() as int),
            decreases elems@.len(),
        {
            let ghost k = out@.len() as int;
            let x = elems.remove(0);
            proof {
                assert(x == orig[k]);
                assert(orig.skip(k).remove(0) =~= orig.skip(k + 1));
            }
            f(&x);
            out.push(x);
            proof {
                assert(out@ =~= orig.take(k + 1));
            }
        }
        proof {
            assert(out@ =~= orig);
        }
        IteratorFixed::from_vec(out)
    }

    /// Transforms the elements with a stateful step `f`, which takes the
    /// running state and an element and returns the next state and an
    /// output element.  The count `N` is unchanged; the ensures exhibits
    /// the chain of states the run went through, starting at `init`.
    pub fn scan<St, U, F: Fn(St, T) -> (St, U)>(self, init: St, f: F) -> (r: IteratorFixed<U, N>)
        requires
            forall|s: St, i: int|
                0 <= i < self@.len() ==> #[trigger] call_requires(f, (s, self@[i])),
        ensures
            r@.len() == N,
            self@.len() == N,
            exists|ss: Seq<St>|
                {
                    &&& ss.len() == N + 1
                    &&& ss[0] == init
                    &&& forall|i: int|
                        0 <= i < N ==> call_ensures(f, (ss[i], self@[i]), (ss[i + 1], #[trigger] r@[i]))
                },
    {
        proof {
            use_type_invariant(&self);
        }
        let ghost orig: Seq<T> = self@;
        let mut elems = self.elems;
        let mut out: Vec<U> = Vec::new();
        let mut st = init;
        let ghost mut ss: Seq<St> = seq![init];
        while elems.len() > 0
            invariant
                out@.len() + elems@.len() == N,
                elems@ == orig.skip(out@.len() as int),
                orig.len() == N,
                forall|s: St, i: int|
                    0 <= i < orig.len() ==> #[trigger] call_requires(f, (s, orig[i])),
                ss.len() == out@.len() + 1,
                ss[0] == init,
                ss.last() == st,
                forall|i: int|
                    0 <= i < out@.len() ==> call_ensures(
                        f,
                        (ss[i], orig[i]),
                        (ss[i + 1], #[trigger] out@[i]),
                    ),
            decreases elems@.len(),
        {
            let ghost k = out@.len() as int;
            let x = elems.remove(0);
            proof {
                assert(x == orig[k]);
                assert(orig.skip(k).remove(0) =~= orig.skip(k + 1));
            }
            let (next, y) = f(st, x);
            st = next;
            out.push(y);
            proof {
                ss = ss.push(st);
            }
        }
        let ghost states = ss;
        proof {
            assert(states.len() == N + 1 && states[0] == init && forall|i: int|
                0 <= i < N ==> call_ensures(f, (states[i], orig[i]), (states[i + 1], #[trigger] out@[i])));
        }
        IteratorFixed::from_vec(out)
    }

    /// Consumes the wrapper, combining the elements in order into a single
    /// value with `f`, starting from `init`.  The ensures exhibits the chain
    /// of accumulator values the run went through.
    pub fn fold<B, F: Fn(B, T) -> B>(self, init: B, f: F) -> (r: B)
        requires
            forall|b: B, i: int|
                0 <= i < self@.len() ==> #[trigger] call_requires(f, (b, self@[i])),
        ensures
            self@.len() == N,
            exists|bs: Seq<B>|
                {
                    &&& bs.len() == N + 1
                    &&& bs[0] == init
                    &&& bs[bs.len() - 1] == r
                    &&& forall|i: int|
                        0 <= i < N ==> call_ensures(f, (bs[i], #[trigger] self@[i]), bs[i + 1])
                },
    {
        proof {
            use_type_invariant(&self);
        }
        let ghost orig: Seq<T> = self@;
        let mut elems = self.elems;
        let mut acc = init;
        let mut done: usize = 0;
        let ghost mut bs: Seq<B> = seq![init];
        while elems.len() > 0
            invariant
                done + elems@.len() == N,
                elems@ == orig.skip(done as int),
                orig.len() == N,
                forall|b: B, i: int|
                    0 <= i < orig.len() ==> #[trigger] call_requires(f, (b, orig[i])),
                bs.len() == done + 1,
                bs[0] == init,
                bs.last() == acc,
                forall|i: int|
                    0 <= i < done ==> call_ensures(f, (bs[i], #[trigger] orig[i]), bs[i + 1]),
            decreases elems@.len(),
        {
            let ghost k = done as int;
            let x = elems.remove(0);
            proof {
                assert(x == orig[k]);
                assert(orig.skip(k).remove(0) =~= orig.skip(k + 1));
            }
            acc = f(acc, x);
            done += 1;
            proof {
                bs = bs.push(acc);
            }
        }
        let ghost chain = bs;
        proof {
            assert(chain.len() == N + 1 && chain[0] == init && chain[chain.len() - 1] == acc
                && forall|i: int|
                0 <= i < N ==> call_ensures(f, (chain[i], #[trigger] orig[i]), chain[i + 1]));
        }
        acc
    }

    /// Collects the wrapper into a fixed-capacity container of length `N`.
    ///
    /// The conversion is total: the wrapper's invariant supplies exactly the
    /// `N` elements the container needs, so there is no fallible or partial
    /// path and no runtime length check.
    pub fn collect<U: FromIteratorFixed<T, N>>(self) -> (r: U)
        ensures
            U::collected(self@, r),
            self@.len() == N,
    {
        proof {
            use_type_invariant(&self);
        }
        U::from_iter_fixed(self)
    }

    /// Transforms each element with `f`, keeping the count `N` unchanged.
    pub fn map<U, F: Fn(T) -> U>(self, f: F) -> (r: IteratorFixed<U, N>)
        requires
            forall|i: int| 0 <= i < self@.len() ==> call_requires(f, (#[trigger] self@[i],)),
        ensures
            r@.len() == N,
            self@.len() == N,
            forall|i: int| 0 <= i < N ==> call_ensures(f, (self@[i],), #[trigger] r@[i]),
    {
        proof {
            use_type_invariant(&self);
        }
        let ghost orig: Seq<T> = self@;
        let mut elems = self.elems;
        let mut out: Vec<U> = Vec::new();
        while elems.len() > 0
            invariant
                out@.len() + elems@.len() == N,
                elems@ == orig.skip(out@.len() as int),
                orig.len() == N,
                forall|j: int| 0 <= j < orig.len() ==> call_requires(f, (#[trigger] orig[j],)),
                forall|j: int| 0 <= j < out@.len() ==> call_ensures(f, (orig[j],), #[trigger] out@[j]),
            decreases elems@.len(),
        {
            let ghost k = out@.len() as int;
            let x = elems.remove(0);
            proof {
                assert(x == orig[k]);
                assert(orig.skip(k).remove(0) =~= orig.skip(k + 1));
            }
            out.push(f(x));
        }
        IteratorFixed::from_vec(out)
    }

    /// Pairs each element with its 0-based position, keeping the count `N`.
    pub fn enumerate(self) -> (r: IteratorFixed<(usize, T), N>)
        ensures
            r@.len() == N,
            self@.len() == N,
            forall|i: int| 0 <= i < N ==> #[trigger] r@[i] == (i as usize, self@[i]),
    {
        proof {
            use_type_invariant(&self);
        }
        let ghost orig: Seq<T> = self@;
        let mut elems = self.elems;
        let mut out: Vec<(usize, T)> = Vec::new();
        let mut i: usize = 0;
        while elems.len() > 0
            invariant
                i == out@.len(),
                out@.len() + elems@.len() == N,
                elems@ == orig.skip(out@.len() as int),
                orig.len() == N,
                forall|j: int| 0 <= j < out@.len() ==> #[trigger] out@[j] == (j as usize, orig[j]),
            decreases elems@.len(),
        {
            let ghost k = out@.len() as int;
            let x = elems.remove(0);
            proof {
                assert(x == orig[k]);
                assert(orig.skip(k).remove(0) =~= orig.skip(k + 1));
            }
            out.push((i, x));
            i = i + 1;
        }
        IteratorFixed::from_vec(out)
    }

    /// Pairs the elements positionally with those of a second source of the
    /// same tagged length `N`.
    ///
    /// The second argument is anything that converts into a wrapper of the
    /// same length: the equality of the two counts is demanded at the type
    /// level, not checked at run time.
    pub fn zip<U, I2: IntoIteratorFixed<N, Item = U>>(self, other: I2) -> (r: IteratorFixed<
        (T, U),
        N,
    >)
        ensures
            r@.len() == N,
            self@.len() == N,
            other.fixed_view().len() == N,
            forall|i: int| 0 <= i < N ==> #[trigger] r@[i] == (self@[i], other.fixed_view()[i]),
    {
        proof {
            use_type_invariant(&self);
        }
        let ghost sa: Seq<T> = self@;
        let ghost sb: Seq<U> = other.fixed_view();
        let mut a = self.elems;
        let mut b = other.into_iter_fixed().into_vec();
        let mut out: Vec<(T, U)> = Vec::new();
        while a.len() > 0
            invariant
                out@.len() + a@.len() == N,
                b@.len() == a@.len(),
                a@ == sa.skip(out@.len() as int),
                b@ == sb.skip(out@.len() as int),
                sa.len() == N,
                sb.len() == N,
                forall|j: int| 0 <= j < out@.len() ==> #[trigger] out@[j] == (sa[j], sb[j]),
            decreases a@.len(),
        {
            let ghost k = out@.len() as int;
            let x = a.remove(0);
            let y = b.remove(0);
            proof {
                assert(x == sa[k]);
                assert(y == sb[k]);
                assert(sa.skip(k).remove(0) =~= sa.skip(k + 1));
                assert(sb.skip(k).remove(0) =~= sb.skip(k + 1));
            }
            out.push((x, y));
        }
        IteratorFixed::from_vec(out)
    }

    /// Concatenates a second source of tagged length `N2` after this one:
    /// the result carries the tag `SUM`, which must equal `N + N2`, and
    /// holds the elements of `self` followed by those of `other`.
    pub fn chain<const N2: usize, const SUM: usize, I2: IntoIteratorFixed<N2, Item = T>>(
        self,
        other: I2,
    ) -> (r: IteratorFixed<T, SUM>)
        requires
            SUM == N + N2,
        ensures
            r@ == self@ + other.fixed_view(),
            self@.len() == N,
            other.fixed_view().len() == N2,
    {
        proof {
            use_type_invariant(&self);
        }
        let mut a = self.elems;
        let mut b = other.into_iter_fixed().into_vec();
        a.append(&mut b);
        IteratorFixed::from_vec(a)
    }

    /// Keeps the first `K` elements, in order.  The prefix length `K` is a
    /// compile-time constant and must not exceed the tagged length `N`.
    pub fn take<const K: usize>(self) -> (r: IteratorFixed<T, K>)
        requires
            K <= N,
        ensures
            r@ == self@.take(K as int),
            self@.len() == N,
    {
        proof {
            use_type_invariant(&self);
        }
        let mut elems = self.elems;
        elems.truncate(K);
        IteratorFixed::from_vec(elems)
    }

    /// Drops the first `K` elements and keeps the remaining ones, in order.
    /// The prefix length `K` is a compile-time constant and must not exceed
    /// the tagged length `N`; the result carries the tag `M`, which must
    /// equal `N - K`.
    pub fn skip<const K: usize, const M: usize>(self) -> (r: IteratorFixed<T, M>)
        requires
            K <= N,
            M == N - K,
        ensures
            r@ == self@.skip(K as int),
            self@.len() == N,
    {
        proof {
            use_type_invariant(&self);
        }
        let mut elems = self.elems;
        let tail = elems.split_off(K);
        IteratorFixed::from_vec(tail)
    }

    /// Keeps every `S`-th element starting at the first: the elements at
    /// indices `0, S, 2 * S, ...`, in order.  The stride `S` is a
    /// compile-time constant of at least 1; the result carries the tag `M`,
    /// which must equal `N / S` rounded upward.
    pub fn step_by<const S: usize, const M: usize>(self) -> (r: IteratorFixed<T, M>)
        requires
            1 <= S,
            M == (N + S - 1) / (S as int),
        ensures
            self@.len() == N,
            r@.len() == M,
            forall|i: int| 0 <= i < M ==> #[trigger] r@[i] == self@[i * S],
    {
        proof {
            use_type_invariant(&self);
        }
        let ghost orig: Seq<T> = self@;
        let mut elems = self.elems;
        let mut out: Vec<T> = Vec::new();
        let mut idx: usize = 0;
        proof {
            assert((S as int - 1) / (S as int) == 0) by (nonlinear_arith)
                requires
                    S as int >= 1,
            ;
        }
        while elems.len() > 0
            invariant
                idx + elems@.len() == N,
                elems@ == orig.skip(idx as int),
                orig.len() == N,
                1 <= S,
                out@.len() == (idx + S - 1) / (S as int),
                forall|j: int| 0 <= j < out@.len() ==> #[trigger] out@[j] == orig[j * S],
            decreases elems@.len(),
        {
            let ghost k = idx as int;
            let ghost s = S as int;
            let x = elems.remove(0);
            proof {
                assert(x == orig[k]);
                assert(orig.skip(k).remove(0) =~= orig.skip(k + 1));
            }
            if idx % S == 0 {
                proof {
                    assert((k + s - 1) / s == k / s && k == (k / s) * s && (k + s) / s == k / s
                        + 1) by (nonlinear_arith)
                        requires
                            s >= 1,
                            k >= 0,
                            k % s == 0,
                    ;
                }
                out.push(x);
            } else {
                proof {
                    assert((k + s) / s == (k + s - 1) / s) by (nonlinear_arith)
                        requires
                            s >= 1,
                            k >= 0,
                            k % s != 0,
                    ;
                }
            }
            idx = idx + 1;
        }
        IteratorFixed::from_vec(out)
    }

    /// Flattens a wrapper whose elements each convert into a wrapper of
    /// fixed length `K`, yielding the `N * K` inner elements in row-major
    /// order.  The result carries the tag `M`, which must equal `N * K`.
    pub fn flatten<const K: usize, const M: usize>(self) -> (r: IteratorFixed<
        <T as IntoIteratorFixed<K>>::Item,
        M,
    >) where T: IntoIteratorFixed<K>
        requires
            M == N * K,
        ensures
            self@.len() == N,
            r@.len() == M,
            forall|i: int| 0 <= i < N ==> (#[trigger] self@[i].fixed_view()).len() == K,
            forall|i: int, j: int|
                0 <= i < N && 0 <= j < K ==> r@[i * K + j] == #[trigger] self@[i].fixed_view()[j],
    {
        proof {
            use_type_invariant(&self);
        }
        let ghost orig: Seq<T> = self@;
        let mut elems = self.elems;
        let mut out: Vec<<T as IntoIteratorFixed<K>>::Item> = Vec::new();
        let mut i: usize = 0;
        while elems.len() > 0
            invariant
                i + elems@.len() == N,
                elems@ == orig.skip(i as int),
                orig.len() == N,
                M == N * K,
                out@.len() == i * K,
                forall|a: int| 0 <= a < i ==> (#[trigger] orig[a].fixed_view()).len() == K,
                forall|a: int, b: int|
                    0 <= a < i && 0 <= b < K ==> out@[a * K + b] == #[trigger] orig[a].fixed_view()[b],
            decreases elems@.len(),
        {
            let ghost k = i as int;
            let ghost old_out: Seq<<T as IntoIteratorFixed<K>>::Item> = out@;
            let e = elems.remove(0);
            proof {
                assert(e == orig[k]);
                assert(orig.skip(k).remove(0) =~= orig.skip(k + 1));
            }
            let w = e.into_iter_fixed();
            let mut inner = w.into_vec();
            out.append(&mut inner);
            proof {
                assert((k + 1) * K == k * K + K) by (nonlinear_arith);
                assert forall|a: int, b: int| 0 <= a < k + 1 && 0 <= b < K implies out@[a * K + b]
                    == orig[a].fixed_view()[b] by {
                    if a < k {
                        assert(0 <= a * K + b && a * K + b < k * K) by (nonlinear_arith)
                            requires
                                0 <= a,
                                a < k,
                                0 <= b,
                                b < K,
                        ;
                        assert(out@[a * K + b] == old_out[a * K + b]);
                    } else {
                        assert(out@[k * K + b] == orig[k].fixed_view()[b]);
                    }
                }
            }
            i = i + 1;
        }
        IteratorFixed::from_vec(out)
    }

    /// Applies `f` to each element and flattens the results, each of which
    /// converts into a wrapper of fixed length `K`, yielding the `N * K`
    /// produced elements in row-major order.  The result carries the tag
    /// `M`, which must equal `N * K`.
    pub fn flat_map<W, const K: usize, const M: usize, F: Fn(T) -> W>(self, f: F) -> (r:
        IteratorFixed<<W as IntoIteratorFixed<K>>::Item, M>) where W: IntoIteratorFixed<K>
        requires
            M == N * K,
            forall|i: int| 0 <= i < self@.len() ==> call_requires(f, (#[trigger] self@[i],)),
        ensures
            self@.len() == N,
            r@.len() == M,
            exists|ws: Seq<W>|
                {
                    &&& ws.len() == N
                    &&& forall|i: int| 0 <= i < N ==> call_ensures(f, (self@[i],), #[trigger] ws[i])
                    &&& forall|i: int| 0 <= i < N ==> (#[trigger] ws[i].fixed_view()).len() == K
                    &&& forall|i: int, j: int|
                        0 <= i < N && 0 <= j < K ==> r@[i * K + j] == #[trigger] ws[i].fixed_view()[j]
                },
    {
        proof {
            use_type_invariant(&self);
        }
        let ghost orig: Seq<T> = self@;
        let mid: IteratorFixed<W, N> = self.map(f);
        let ghost ws: Seq<W> = mid@;
        let r = mid.flatten();
        proof {
            assert(ws.len() == N && (forall|i: int|
                0 <= i < N ==> call_ensures(f, (orig[i],), #[trigger] ws[i])) && (forall|i: int|
                0 <= i < N ==> (#[trigger] ws[i].fixed_view()).len() == K) && (forall|
                i: int,
                j: int,
            |
                0 <= i < N && 0 <= j < K ==> r@[i * K + j] == #[trigger] ws[i].fixed_view()[j]));
        }
        r
    }

    /// Reverses the order of the elements, keeping the count `N`.
    pub fn rev(self) -> (r: IteratorFixed<T, N>)
        ensures
            r@ == self@.reverse(),
            self@.len() == N,
    {
        proof {
            use_type_invariant(&self);
        }
        let ghost orig: Seq<T> = self@;
        let mut elems = self.elems;
        let mut out: Vec<T> = Vec::new();
        while elems.len() > 0
            invariant
                out@.len() + elems@.len() == N,
                elems@ == orig.take(elems@.len() as int),
                orig.len() == N,
                forall|j: int| 0 <= j < out@.len() ==> #[trigger] out@[j] == orig[N - 1 - j],
            decreases elems@.len(),
        {
            let x_opt = elems.pop();
            match x_opt {
                Some(x) => {
                    proof {
                        let m = elems@.len() as int;
                        assert(x == orig.take(m + 1)[m]);
                        assert(orig.take(m + 1).take(m) =~= orig.take(m));
                    }
                    out.push(x);
                }
                None => {
                    proof {
                        assert(false);
                    }
                }
            }
        }
        proof {
            assert(out@ =~= orig.reverse());
        }
        IteratorFixed::from_vec(out)
    }
}

impl<'a, T, const N: usize> IteratorFixed<&'a T, N> {
    /// Duplicates the referenced values by copy, turning a wrapper of
    /// references into a wrapper of owned values.
    pub fn copied(self) -> (r: IteratorFixed<T, N>) where T: Copy
        ensures
            r@.len() == N,
            self@.len() == N,
            forall|i: int| 0 <= i < N ==> #[trigger] r@[i] == *self@[i],
    {
        proof {
            use_type_invariant(&self);
        }
        let ghost orig: Seq<&'a T> = self@;
        let mut elems = self.elems;
        let mut out: Vec<T> = Vec::new();
        while elems.len() > 0
            invariant
                out@.len() + elems@.len() == N,
                elems@ == orig.skip(out@.len() as int),
                orig.len() == N,
                forall|j: int| 0 <= j < out@.len() ==> #[trigger] out@[j] == *orig[j],
            decreases elems@.len(),
        {
            let ghost k = out@.len() as int;
            let x = elems.remove(0);
            proof {
                assert(x == orig[k]);
                assert(orig.skip(k).remove(0) =~= orig.skip(k + 1));
            }
            out.push(*x);
        }
        IteratorFixed::from_vec(out)
    }

    /// Duplicates the referenced values by cloning, turning a wrapper of
    /// references into a wrapper of owned values.  Each output element is a
    /// clone of the referenced input element.
    pub fn cloned(self) -> (r: IteratorFixed<T, N>) where T: Clone
        ensures
            r@.len() == N,
            self@.len() == N,
            forall|i: int| 0 <= i < N ==> vstd::pervasive::cloned::<T>(*self@[i], #[trigger] r@[i]),
    {
        proof {
            use_type_invariant(&self);
        }
        let ghost orig: Seq<&'a T> = self@;
        let mut elems = self.elems;
        let mut out: Vec<T> = Vec::new();
        while elems.len() > 0
            invariant
                out@.len() + elems@.len() == N,
                elems@ == orig.skip(out@.len() as int),
                orig.len() == N,
                forall|j: int|
                    0 <= j < out@.len() ==> vstd::pervasive::cloned::<T>(
                        *orig[j],
                        #[trigger] out@[j],
                    ),
            decreases elems@.len(),
        {
            let ghost k = out@.len() as int;
            let x = elems.remove(0);
            proof {
                assert(x == orig[k]);
                assert(orig.skip(k).remove(0) =~= orig.skip(k + 1));
            }
            out.push(x.clone());
        }
        IteratorFixed::from_vec(out)
    }
}

} // verus!
