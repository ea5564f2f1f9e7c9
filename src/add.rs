use vstd::prelude::*;

use crate::kind::fits;
use crate::numerical::Numerical;
use crate::promote::Promote;
use crate::{all_fit, lemma_nvec_of, nvec_of, operands_fit, promote_both, NVec, Promoted};

verus! {

/// The component-wise sums of `a` and `b`.
pub open spec fn sums(a: Seq<int>, b: Seq<int>) -> Seq<int> {
    Seq::new(a.len(), |i: int| a[i] + b[i])
}

impl<T: Promote<U>, U: Numerical, const N: usize> core::ops::Add<NVec<U, N>> for NVec<T, N> {
    type Output = NVec<Promoted<T, U>, N>;

    /// Adds component by component in the result type of `T` and `U`.
    fn add(self, rhs: NVec<U, N>) -> (r: Self::Output)
        ensures
            r@ == sums(self@, rhs@),
    {
        let (x, y) = promote_both(self, rhs);
        let mut out = x.components;
        let mut i: usize = 0;
        while i < N
            invariant
                i <= N,
                x@ == self@,
                y@ == rhs@,
                all_fit(Promoted::<T, U>::kind(), sums(self@, rhs@)),
                forall|j: int| 0 <= j < i ==> out[j].value() == sums(self@, rhs@)[j],
            decreases N - i,
        {
            assert(fits(Promoted::<T, U>::kind(), sums(self@, rhs@)[i as int]));
            out[i] = x.components[i].plus(y.components[i]);
            i = i + 1;
        }
        let r = NVec { components: out };
        assert(r@ =~= sums(self@, rhs@));
        proof {
            lemma_nvec_of(r);
        }
        r
    }
}

impl<T: Promote<U>, U: Numerical, const N: usize> vstd::std_specs::ops::AddSpecImpl<NVec<U, N>> for NVec<T, N> {
    open spec fn obeys_add_spec() -> bool {
        true
    }

    /// Every component of the operands and of the sum fits the result type.
    open spec fn add_req(self, rhs: NVec<U, N>) -> bool {
        operands_fit(self, rhs) && all_fit(Promoted::<T, U>::kind(), sums(self@, rhs@))
    }

    open spec fn add_spec(self, rhs: NVec<U, N>) -> Self::Output {
        nvec_of(sums(self@, rhs@))
    }
}

} // verus!
