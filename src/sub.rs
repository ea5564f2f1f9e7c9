use vstd::prelude::*;

use crate::kind::fits;
use crate::numerical::Numerical;
use crate::promote::{lemma_promoted_kind_symmetric, Promote};
use crate::{all_fit, lemma_nvec_of, nvec_of, operands_fit, promote_both, NVec, Promoted};

verus! {

/// The component-wise differences `a[i] - b[i]`.
pub open spec fn differences(a: Seq<int>, b: Seq<int>) -> Seq<int> {
    Seq::new(a.len(), |i: int| a[i] - b[i])
}

/// Every component negated.
pub open spec fn negated(a: Seq<int>) -> Seq<int> {
    Seq::new(a.len(), |i: int| -a[i])
}

impl<T: Promote<U>, U: Numerical, const N: usize> core::ops::Sub<NVec<U, N>> for NVec<T, N> {
    type Output = NVec<Promoted<T, U>, N>;

    /// Subtracts `rhs` from `self` component by component in the result type of
    /// `T` and `U`.
    fn sub(self, rhs: NVec<U, N>) -> (r: Self::Output)
        ensures
            r@ == differences(self@, rhs@),
    {
        let (x, y) = promote_both(self, rhs);
        let mut out = x.components;
        let mut i: usize = 0;
        while i < N
            invariant
                i <= N,
                x@ == self@,
                y@ == rhs@,
                all_fit(Promoted::<T, U>::kind(), differences(self@, rhs@)),
                forall|j: int| 0 <= j < i ==> out[j].value() == differences(self@, rhs@)[j],
            decreases N - i,
        {
            assert(fits(Promoted::<T, U>::kind(), differences(self@, rhs@)[i as int]));
            out[i] = x.components[i].minus(y.components[i]);
            i = i + 1;
        }
        let r = NVec { components: out };
        assert(r@ =~= differences(self@, rhs@));
        proof {
            lemma_nvec_of(r);
        }
        r
    }
}

impl<T: Promote<U>, U: Numerical, const N: usize> vstd::std_specs::ops::SubSpecImpl<NVec<U, N>> for NVec<T, N> {
    open spec fn obeys_sub_spec() -> bool {
        true
    }

    /// Every component of the operands and of the difference fits the result type.
    open spec fn sub_req(self, rhs: NVec<U, N>) -> bool {
        operands_fit(self, rhs) && all_fit(Promoted::<T, U>::kind(), differences(self@, rhs@))
    }

    open spec fn sub_spec(self, rhs: NVec<U, N>) -> Self::Output {
        nvec_of(differences(self@, rhs@))
    }
}

/// Subtraction is anticommutative: `a - b` is `b - a` negated, and both have a
/// result type of the same kind.
pub proof fn lemma_sub_anticommutative<T: Promote<U>, U: Promote<T>, const N: usize>(
    a: NVec<T, N>,
    b: NVec<U, N>,
)
    ensures
        differences(a@, b@) == negated(differences(b@, a@)),
        Promoted::<T, U>::kind() == Promoted::<U, T>::kind(),
{
    lemma_promoted_kind_symmetric::<T, U>();
    assert(differences(a@, b@) =~= negated(differences(b@, a@)));
}

} // verus!
