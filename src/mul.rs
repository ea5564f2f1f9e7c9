use vstd::prelude::*;

use crate::kind::fits;
use crate::numerical::Numerical;
use crate::promote::{lemma_promoted_kind_symmetric, Promote};
use crate::{all_fit, lemma_nvec_of, nvec_of, operands_fit, promote_both, NVec, Promoted};
use crate::element_multiply::products;

verus! {

/// The sum of the first `n` products `a[i] * b[i]`, taken from the left.
pub open spec fn dot_prefix(a: Seq<int>, b: Seq<int>, n: int) -> int
    decreases n,
{
    if n <= 0 {
        0
    } else {
        dot_prefix(a, b, n - 1) + a[n - 1] * b[n - 1]
    }
}

/// The dot product: the sum of all products `a[i] * b[i]`.
pub open spec fn dot(a: Seq<int>, b: Seq<int>) -> int {
    dot_prefix(a, b, a.len() as int)
}

/// What the dot product of `a` and `b` needs: every component, every product and
/// every running sum fits the result type.
pub open spec fn dot_req<T: Promote<U>, U: Numerical, const N: usize>(a: NVec<T, N>, b: NVec<U, N>) -> bool {
    &&& operands_fit(a, b)
    &&& all_fit(Promoted::<T, U>::kind(), products(a@, b@))
    &&& forall|n: int| 0 <= n <= N ==> fits(Promoted::<T, U>::kind(), #[trigger] dot_prefix(a@, b@, n))
}

/// Every component multiplied by `s` on the right.
pub open spec fn scaled(a: Seq<int>, s: int) -> Seq<int> {
    Seq::new(a.len(), |i: int| a[i] * s)
}

/// Every component multiplied by `s` on the left.
pub open spec fn scaled_left(s: int, a: Seq<int>) -> Seq<int> {
    Seq::new(a.len(), |i: int| s * a[i])
}

/// What multiplying `a` by the scalar `s` needs: the components, the scalar and
/// the products fit the result type.
pub open spec fn scalar_mul_req<T: Promote<U>, U: Numerical, const N: usize>(a: NVec<T, N>, s: U) -> bool {
    &&& all_fit(Promoted::<T, U>::kind(), a@)
    &&& fits(Promoted::<T, U>::kind(), s.value())
    &&& all_fit(Promoted::<T, U>::kind(), scaled(a@, s.value()))
}

/// The value of type `V` that stands for `v`.
pub open spec fn scalar_of<V: Numerical>(v: int) -> V {
    choose|r: V| r.value() == v
}

pub proof fn lemma_scalar_of<V: Numerical>(r: V)
    ensures
        scalar_of::<V>(r.value()) == r,
{
    assert(exists|c: V| #[trigger] c.value() == r.value()) by {
        assert(r.value() == r.value());
    }
    scalar_of::<V>(r.value()).lemma_value_injective(r);
}

impl<T: Promote<U>, U: Numerical, const N: usize> core::ops::Mul<NVec<U, N>> for NVec<T, N> {
    type Output = Promoted<T, U>;

    /// The dot product, summed from the left in the result type of `T` and `U`.
    fn mul(self, rhs: NVec<U, N>) -> (r: Self::Output)
        ensures
            r.value() == dot(self@, rhs@),
    {
        let (x, y) = promote_both(self, rhs);
        let mut acc = Promoted::<T, U>::zero();
        let mut i: usize = 0;
        while i < N
            invariant
                i <= N,
                x@ == self@,
                y@ == rhs@,
                dot_req(self, rhs),
                acc.value() == dot_prefix(self@, rhs@, i as int),
            decreases N - i,
        {
            assert(fits(Promoted::<T, U>::kind(), products(self@, rhs@)[i as int]));
            let p = x.components[i].times(y.components[i]);
            assert(fits(Promoted::<T, U>::kind(), dot_prefix(self@, rhs@, i + 1)));
            acc = acc.plus(p);
            i = i + 1;
        }
        proof {
            lemma_scalar_of(acc);
        }
        acc
    }
}

impl<T: Promote<U>, U: Numerical, const N: usize> vstd::std_specs::ops::MulSpecImpl<NVec<U, N>> for NVec<T, N> {
    open spec fn obeys_mul_spec() -> bool {
        true
    }

    open spec fn mul_req(self, rhs: NVec<U, N>) -> bool {
        dot_req(self, rhs)
    }

    open spec fn mul_spec(self, rhs: NVec<U, N>) -> Self::Output {
        scalar_of(dot(self@, rhs@))
    }
}

impl<T: Promote<U>, U: Numerical, const N: usize> core::ops::Mul<U> for NVec<T, N> {
    type Output = NVec<Promoted<T, U>, N>;

    /// Multiplies every component by the scalar `rhs`, in the result type of `T`
    /// and `U`.
    fn mul(self, rhs: U) -> (r: Self::Output)
        ensures
            r@ == scaled(self@, rhs.value()),
    {
        let s = <T as Promote<U>>::promote_rhs(rhs);
        let zero = Promoted::<T, U>::zero();
        let mut out: [Promoted<T, U>; N] = [zero; N];
        let mut i: usize = 0;
        while i < N
            invariant
                i <= N,
                s.value() == rhs.value(),
                scalar_mul_req(self, rhs),
                forall|j: int| 0 <= j < i ==> out[j].value() == scaled(self@, rhs.value())[j],
            decreases N - i,
        {
            assert(fits(Promoted::<T, U>::kind(), self@[i as int]));
            let c = self.components[i].promote_lhs();
            assert(fits(Promoted::<T, U>::kind(), scaled(self@, rhs.value())[i as int]));
            out[i] = c.times(s);
            i = i + 1;
        }
        let r = NVec { components: out };
        assert(r@ =~= scaled(self@, rhs.value()));
        proof {
            lemma_nvec_of(r);
        }
        r
    }
}

impl<T: Promote<U>, U: Numerical, const N: usize> vstd::std_specs::ops::MulSpecImpl<U> for NVec<T, N> {
    open spec fn obeys_mul_spec() -> bool {
        true
    }

    open spec fn mul_req(self, rhs: U) -> bool {
        scalar_mul_req(self, rhs)
    }

    open spec fn mul_spec(self, rhs: U) -> Self::Output {
        nvec_of(scaled(self@, rhs.value()))
    }
}

impl<T: Promote<i8>, const N: usize> core::ops::Mul<NVec<T, N>> for i8 {
    type Output = NVec<Promoted<T, i8>, N>;

    /// Multiplies every component of `rhs` by `self`.
    fn mul(self, rhs: NVec<T, N>) -> (r: Self::Output)
        ensures
            r@ == scaled_left(self.value(), rhs@),
    {
        proof {
            lemma_scale_sides(rhs@, self.value());
        }
        rhs * self
    }
}

impl<T: Promote<i8>, const N: usize> vstd::std_specs::ops::MulSpecImpl<NVec<T, N>> for i8 {
    open spec fn obeys_mul_spec() -> bool {
        true
    }

    open spec fn mul_req(self, rhs: NVec<T, N>) -> bool {
        scalar_mul_req(rhs, self)
    }

    open spec fn mul_spec(self, rhs: NVec<T, N>) -> Self::Output {
        nvec_of(scaled_left(self.value(), rhs@))
    }
}

impl<T: Promote<i16>, const N: usize> core::ops::Mul<NVec<T, N>> for i16 {
    type Output = NVec<Promoted<T, i16>, N>;

    /// Multiplies every component of `rhs` by `self`.
    fn mul(self, rhs: NVec<T, N>) -> (r: Self::Output)
        ensures
            r@ == scaled_left(self.value(), rhs@),
    {
        proof {
            lemma_scale_sides(rhs@, self.value());
        }
        rhs * self
    }
}

impl<T: Promote<i16>, const N: usize> vstd::std_specs::ops::MulSpecImpl<NVec<T, N>> for i16 {
    open spec fn obeys_mul_spec() -> bool {
        true
    }

    open spec fn mul_req(self, rhs: NVec<T, N>) -> bool {
        scalar_mul_req(rhs, self)
    }

    open spec fn mul_spec(self, rhs: NVec<T, N>) -> Self::Output {
        nvec_of(scaled_left(self.value(), rhs@))
    }
}

impl<T: Promote<i32>, const N: usize> core::ops::Mul<NVec<T, N>> for i32 {
    type Output = NVec<Promoted<T, i32>, N>;

    /// Multiplies every component of `rhs` by `self`.
    fn mul(self, rhs: NVec<T, N>) -> (r: Self::Output)
        ensures
            r@ == scaled_left(self.value(), rhs@),
    {
        proof {
            lemma_scale_sides(rhs@, self.value());
        }
        rhs * self
    }
}

impl<T: Promote<i32>, const N: usize> vstd::std_specs::ops::MulSpecImpl<NVec<T, N>> for i32 {
    open spec fn obeys_mul_spec() -> bool {
        true
    }

    open spec fn mul_req(self, rhs: NVec<T, N>) -> bool {
        scalar_mul_req(rhs, self)
    }

    open spec fn mul_spec(self, rhs: NVec<T, N>) -> Self::Output {
        nvec_of(scaled_left(self.value(), rhs@))
    }
}

impl<T: Promote<i64>, const N: usize> core::ops::Mul<NVec<T, N>> for i64 {
    type Output = NVec<Promoted<T, i64>, N>;

    /// Multiplies every component of `rhs` by `self`.
    fn mul(self, rhs: NVec<T, N>) -> (r: Self::Output)
        ensures
            r@ == scaled_left(self.value(), rhs@),
    {
        proof {
            lemma_scale_sides(rhs@, self.value());
        }
        rhs * self
    }
}

impl<T: Promote<i64>, const N: usize> vstd::std_specs::ops::MulSpecImpl<NVec<T, N>> for i64 {
    open spec fn obeys_mul_spec() -> bool {
        true
    }

    open spec fn mul_req(self, rhs: NVec<T, N>) -> bool {
        scalar_mul_req(rhs, self)
    }

    open spec fn mul_spec(self, rhs: NVec<T, N>) -> Self::Output {
        nvec_of(scaled_left(self.value(), rhs@))
    }
}

impl<T: Promote<i128>, const N: usize> core::ops::Mul<NVec<T, N>> for i128 {
    type Output = NVec<Promoted<T, i128>, N>;

    /// Multiplies every component of `rhs` by `self`.
    fn mul(self, rhs: NVec<T, N>) -> (r: Self::Output)
        ensures
            r@ == scaled_left(self.value(), rhs@),
    {
        proof {
            lemma_scale_sides(rhs@, self.value());
        }
        rhs * self
    }
}

impl<T: Promote<i128>, const N: usize> vstd::std_specs::ops::MulSpecImpl<NVec<T, N>> for i128 {
    open spec fn obeys_mul_spec() -> bool {
        true
    }

    open spec fn mul_req(self, rhs: NVec<T, N>) -> bool {
        scalar_mul_req(rhs, self)
    }

    open spec fn mul_spec(self, rhs: NVec<T, N>) -> Self::Output {
        nvec_of(scaled_left(self.value(), rhs@))
    }
}

impl<T: Promote<u8>, const N: usize> core::ops::Mul<NVec<T, N>> for u8 {
    type Output = NVec<Promoted<T, u8>, N>;

    /// Multiplies every component of `rhs` by `self`.
    fn mul(self, rhs: NVec<T, N>) -> (r: Self::Output)
        ensures
            r@ == scaled_left(self.value(), rhs@),
    {
        proof {
            lemma_scale_sides(rhs@, self.value());
        }
        rhs * self
    }
}

impl<T: Promote<u8>, const N: usize> vstd::std_specs::ops::MulSpecImpl<NVec<T, N>> for u8 {
    open spec fn obeys_mul_spec() -> bool {
        true
    }

    open spec fn mul_req(self, rhs: NVec<T, N>) -> bool {
        scalar_mul_req(rhs, self)
    }

    open spec fn mul_spec(self, rhs: NVec<T, N>) -> Self::Output {
        nvec_of(scaled_left(self.value(), rhs@))
    }
}

impl<T: Promote<u16>, const N: usize> core::ops::Mul<NVec<T, N>> for u16 {
    type Output = NVec<Promoted<T, u16>, N>;

    /// Multiplies every component of `rhs` by `self`.
    fn mul(self, rhs: NVec<T, N>) -> (r: Self::Output)
        ensures
            r@ == scaled_left(self.value(), rhs@),
    {
        proof {
            lemma_scale_sides(rhs@, self.value());
        }
        rhs * self
    }
}

impl<T: Promote<u16>, const N: usize> vstd::std_specs::ops::MulSpecImpl<NVec<T, N>> for u16 {
    open spec fn obeys_mul_spec() -> bool {
        true
    }

    open spec fn mul_req(self, rhs: NVec<T, N>) -> bool {
        scalar_mul_req(rhs, self)
    }

    open spec fn mul_spec(self, rhs: NVec<T, N>) -> Self::Output {
        nvec_of(scaled_left(self.value(), rhs@))
    }
}

impl<T: Promote<u32>, const N: usize> core::ops::Mul<NVec<T, N>> for u32 {
    type Output = NVec<Promoted<T, u32>, N>;

    /// Multiplies every component of `rhs` by `self`.
    fn mul(self, rhs: NVec<T, N>) -> (r: Self::Output)
        ensures
            r@ == scaled_left(self.value(), rhs@),
    {
        proof {
            lemma_scale_sides(rhs@, self.value());
        }
        rhs * self
    }
}

impl<T: Promote<u32>, const N: usize> vstd::std_specs::ops::MulSpecImpl<NVec<T, N>> for u32 {
    open spec fn obeys_mul_spec() -> bool {
        true
    }

    open spec fn mul_req(self, rhs: NVec<T, N>) -> bool {
        scalar_mul_req(rhs, self)
    }

    open spec fn mul_spec(self, rhs: NVec<T, N>) -> Self::Output {
        nvec_of(scaled_left(self.value(), rhs@))
    }
}

impl<T: Promote<u64>, const N: usize> core::ops::Mul<NVec<T, N>> for u64 {
    type Output = NVec<Promoted<T, u64>, N>;

    /// Multiplies every component of `rhs` by `self`.
    fn mul(self, rhs: NVec<T, N>) -> (r: Self::Output)
        ensures
            r@ == scaled_left(self.value(), rhs@),
    {
        proof {
            lemma_scale_sides(rhs@, self.value());
        }
        rhs * self
    }
}

impl<T: Promote<u64>, const N: usize> vstd::std_specs::ops::MulSpecImpl<NVec<T, N>> for u64 {
    open spec fn obeys_mul_spec() -> bool {
        true
    }

    open spec fn mul_req(self, rhs: NVec<T, N>) -> bool {
        scalar_mul_req(rhs, self)
    }

    open spec fn mul_spec(self, rhs: NVec<T, N>) -> Self::Output {
        nvec_of(scaled_left(self.value(), rhs@))
    }
}

impl<T: Promote<u128>, const N: usize> core::ops::Mul<NVec<T, N>> for u128 {
    type Output = NVec<Promoted<T, u128>, N>;

    /// Multiplies every component of `rhs` by `self`.
    fn mul(self, rhs: NVec<T, N>) -> (r: Self::Output)
        ensures
            r@ == scaled_left(self.value(), rhs@),
    {
        proof {
            lemma_scale_sides(rhs@, self.value());
        }
        rhs * self
    }
}

impl<T: Promote<u128>, const N: usize> vstd::std_specs::ops::MulSpecImpl<NVec<T, N>> for u128 {
    open spec fn obeys_mul_spec() -> bool {
        true
    }

    open spec fn mul_req(self, rhs: NVec<T, N>) -> bool {
        scalar_mul_req(rhs, self)
    }

    open spec fn mul_spec(self, rhs: NVec<T, N>) -> Self::Output {
        nvec_of(scaled_left(self.value(), rhs@))
    }
}

/// Multiplying by a scalar on the left gives the same values as on the right.
pub proof fn lemma_scale_sides(a: Seq<int>, s: int)
    ensures
        scaled(a, s) == scaled_left(s, a),
{
    assert(scaled(a, s) =~= scaled_left(s, a));
}

/// A vector times a scalar and the scalar times the vector agree: both have the
/// values `scaled(a@, s.value())` in the result type of `T` and `U`.
pub proof fn lemma_scalar_multiply_commutative<T: Promote<U>, U: Numerical, const N: usize>(
    a: NVec<T, N>,
    s: U,
)
    ensures
        scaled(a@, s.value()) == scaled_left(s.value(), a@),
{
    lemma_scale_sides(a@, s.value());
}

pub proof fn lemma_dot_prefix_commutative(a: Seq<int>, b: Seq<int>, n: int)
    ensures
        dot_prefix(a, b, n) == dot_prefix(b, a, n),
    decreases n,
{
    if n > 0 {
        lemma_dot_prefix_commutative(a, b, n - 1);
        assert(a[n - 1] * b[n - 1] == b[n - 1] * a[n - 1]) by (nonlinear_arith);
    }
}

/// The dot product is commutative: both orders give the same value in a result
/// type of the same kind, and are defined on the same operands.
pub proof fn lemma_dot_commutative<T: Promote<U>, U: Promote<T>, const N: usize>(
    a: NVec<T, N>,
    b: NVec<U, N>,
)
    ensures
        dot(a@, b@) == dot(b@, a@),
        Promoted::<T, U>::kind() == Promoted::<U, T>::kind(),
        dot_req(a, b) == dot_req(b, a),
{
    lemma_promoted_kind_symmetric::<T, U>();
    lemma_dot_prefix_commutative(a@, b@, N as int);
    assert(products(a@, b@) =~= products(b@, a@));
    assert forall|n: int|
        #![trigger dot_prefix(a@, b@, n)]
        #![trigger dot_prefix(b@, a@, n)]
        0 <= n <= N implies dot_prefix(a@, b@, n) == dot_prefix(b@, a@, n) by {
        lemma_dot_prefix_commutative(a@, b@, n);
    }

}

} // verus!
