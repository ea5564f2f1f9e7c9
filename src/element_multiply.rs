use vstd::prelude::*;

use crate::kind::fits;
use crate::numerical::Numerical;
use crate::promote::{lemma_promoted_kind_symmetric, Promote};
use crate::{all_fit, operands_fit, promote_both, ElementMul, NVec, Promoted};

verus! {

/// The component-wise products `a[i] * b[i]`.
pub open spec fn products(a: Seq<int>, b: Seq<int>) -> Seq<int> {
    Seq::new(a.len(), |i: int| a[i] * b[i])
}

impl<T: Promote<U>, U: Numerical, const N: usize> ElementMul<NVec<U, N>> for NVec<T, N> {
    type Output = NVec<Promoted<T, U>, N>;

    /// Every component of the operands and of the products fits the result type.
    open spec fn element_multiply_req(self, rhs: NVec<U, N>) -> bool {
        operands_fit(self, rhs) && all_fit(Promoted::<T, U>::kind(), products(self@, rhs@))
    }

    /// Multiplies component by component in the result type of `T` and `U`.
    fn element_multiply(self, rhs: NVec<U, N>) -> (r: Self::Output)
        ensures
            r@ == products(self@, rhs@),
    {
        let (x, y) = promote_both(self, rhs);
        let mut out = x.components;
        let mut i: usize = 0;
        while i < N
            invariant
                i <= N,
                x@ == self@,
                y@ == rhs@,
                all_fit(Promoted::<T, U>::kind(), products(self@, rhs@)),
                forall|j: int| 0 <= j < i ==> out[j].value() == products(self@, rhs@)[j],
            decreases N - i,
        {
            assert(fits(Promoted::<T, U>::kind(), products(self@, rhs@)[i as int]));
            out[i] = x.components[i].times(y.components[i]);
            i = i + 1;
        }
        let r = NVec { components: out };
        assert(r@ =~= products(self@, rhs@));
        r
    }
}

/// Component-wise multiplication is commutative: both orders give the same
/// values in a result type of the same kind, and are defined on the same operands.
pub proof fn lemma_element_multiply_commutative<T: Promote<U>, U: Promote<T>, const N: usize>(
    a: NVec<T, N>,
    b: NVec<U, N>,
)
    ensures
        products(a@, b@) == products(b@, a@),
        Promoted::<T, U>::kind() == Promoted::<U, T>::kind(),
        a.element_multiply_req(b) == b.element_multiply_req(a),
{
    lemma_promoted_kind_symmetric::<T, U>();
    assert(products(a@, b@) =~= products(b@, a@));
}

} // verus!
