//! Fixed-length numeric vectors whose arithmetic mixes component types through
//! a promotion table.
use vstd::prelude::*;

pub mod kind;
pub mod numerical;
pub mod promote;

pub mod add;
pub mod cross;
pub mod element_multiply;
pub mod mag;
pub mod mul;
pub mod sub;

pub use kind::Kind;
pub use numerical::Numerical;
pub use promote::Promote;

use kind::fits;

verus! {

/// A vector of `N` components of the numeric type `T`.
#[derive(Debug, Copy, Clone)]
pub struct NVec<T: Numerical, const N: usize> {
    pub components: [T; N],
}

impl<T: Numerical, const N: usize> View for NVec<T, N> {
    type V = Seq<int>;

    /// The components as integers, in order.
    open spec fn view(&self) -> Seq<int> {
        Seq::new(N as nat, |i: int| self.components[i].value())
    }
}

impl<T: Numerical, const N: usize> PartialEq for NVec<T, N> {
    /// Two vectors are equal when all their components are.
    fn eq(&self, other: &Self) -> (r: bool) {
        let mut i: usize = 0;
        while i < N
            invariant
                i <= N,
                forall|j: int| 0 <= j < i ==> self@[j] == other@[j],
            decreases N - i,
        {
            if !self.components[i].equals(other.components[i]) {
                assert(self@[i as int] != other@[i as int]);
                return false;
            }
            i = i + 1;
        }
        assert(self@ =~= other@);
        true
    }
}

impl<T: Numerical, const N: usize> vstd::std_specs::cmp::PartialEqSpecImpl for NVec<T, N> {
    open spec fn obeys_eq_spec() -> bool {
        true
    }

    open spec fn eq_spec(&self, other: &Self) -> bool {
        self@ == other@
    }
}

/// Marks the vector types.
pub trait IsNvec {}

impl<T: Numerical, const N: usize> IsNvec for NVec<T, N> {}

/// Builds a vector from its components.
pub trait NewNVec<T: Numerical, const N: usize> {
    fn new(components: [T; N]) -> (r: NVec<T, N>)
        ensures
            r.components == components,
    ;
}

impl<T: Numerical, const N: usize> NewNVec<T, N> for NVec<T, N> {
    fn new(components: [T; N]) -> (r: NVec<T, N>) {
        NVec { components }
    }
}

/// Multiplies two vectors component by component.
pub trait ElementMul<Rhs = Self> {
    type Output;

    spec fn element_multiply_req(self, rhs: Rhs) -> bool;

    fn element_multiply(self, rhs: Rhs) -> Self::Output
        requires
            self.element_multiply_req(rhs),
    ;
}

/// The cross product of two vectors of length three.
pub trait CrossProduct<Rhs = Self> {
    type Output;

    spec fn cross_req(self, rhs: Rhs) -> bool;

    fn cross(self, rhs: Rhs) -> Self::Output
        requires
            self.cross_req(rhs),
    ;
}

/// The result type of arithmetic between components of types `T` and `U`.
pub type Promoted<T, U> = <T as Promote<U>>::Output;

/// Whether the kind `k` holds every value of `s`.
pub open spec fn all_fit(k: kind::Kind, s: Seq<int>) -> bool {
    forall|i: int| 0 <= i < s.len() ==> fits(k, #[trigger] s[i])
}

/// Whether the result type of `a` and `b` holds every component of both.
pub open spec fn operands_fit<T: Promote<U>, U: Numerical, const N: usize>(
    a: NVec<T, N>,
    b: NVec<U, N>,
) -> bool {
    &&& all_fit(Promoted::<T, U>::kind(), a@)
    &&& all_fit(Promoted::<T, U>::kind(), b@)
}

/// The vector of type `V` whose components have the values `s`.
pub open spec fn nvec_of<V: Numerical, const N: usize>(s: Seq<int>) -> NVec<V, N> {
    choose|r: NVec<V, N>| r@ == s
}

/// A vector is determined by its values.
pub proof fn lemma_view_determines<V: Numerical, const N: usize>(a: NVec<V, N>, b: NVec<V, N>)
    requires
        a@ == b@,
    ensures
        a == b,
{
    assert forall|i: int| 0 <= i < N implies a.components[i] == b.components[i] by {
        assert(a@[i] == a.components[i].value());
        assert(b@[i] == b.components[i].value());
        a.components[i].lemma_value_injective(b.components[i]);
    }
    assert(a.components =~= b.components);
}

pub proof fn lemma_nvec_of<V: Numerical, const N: usize>(r: NVec<V, N>)
    ensures
        nvec_of::<V, N>(r@) == r,
{
    assert(exists|c: NVec<V, N>| #[trigger] c.view() == r@) by {
        assert(r.view() == r@);
    }
    lemma_view_determines(nvec_of::<V, N>(r@), r);
}

/// Converts both operands into their result type.
pub fn promote_both<T: Promote<U>, U: Numerical, const N: usize>(a: NVec<T, N>, b: NVec<U, N>) -> (r: (
    NVec<Promoted<T, U>, N>,
    NVec<Promoted<T, U>, N>,
))
    requires
        operands_fit(a, b),
    ensures
        r.0@ == a@,
        r.1@ == b@,
{
    let zero = Promoted::<T, U>::zero();
    let mut x: [Promoted<T, U>; N] = [zero; N];
    let mut y: [Promoted<T, U>; N] = [zero; N];
    let mut i: usize = 0;
    while i < N
        invariant
            i <= N,
            operands_fit(a, b),
            forall|j: int| 0 <= j < i ==> x[j].value() == a@[j] && y[j].value() == b@[j],
        decreases N - i,
    {
        assert(fits(Promoted::<T, U>::kind(), a@[i as int]));
        assert(fits(Promoted::<T, U>::kind(), b@[i as int]));
        x[i] = a.components[i].promote_lhs();
        y[i] = <T as Promote<U>>::promote_rhs(b.components[i]);
        i = i + 1;
    }
    let r = (NVec { components: x }, NVec { components: y });
    assert(r.0@ =~= a@);
    assert(r.1@ =~= b@);
    r
}

} // verus!
