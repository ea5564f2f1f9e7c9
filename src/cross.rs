use vstd::prelude::*;

use crate::kind::{fits, Kind};
use crate::numerical::Numerical;
use crate::promote::{lemma_promoted_kind_symmetric, Promote};
use crate::sub::negated;
use crate::{operands_fit, promote_both, CrossProduct, NVec, Promoted};

verus! {

/// The cross product of two sequences of length three.
pub open spec fn cross_values(a: Seq<int>, b: Seq<int>) -> Seq<int> {
    seq![a[1] * b[2] - a[2] * b[1], a[2] * b[0] - a[0] * b[2], a[0] * b[1] - a[1] * b[0]]
}

/// Whether the kind `k` holds the six products and the three differences of the
/// cross product of `a` and `b`.
pub open spec fn cross_terms_fit(k: Kind, a: Seq<int>, b: Seq<int>) -> bool {
    &&& fits(k, a[1] * b[2])
    &&& fits(k, a[2] * b[1])
    &&& fits(k, a[2] * b[0])
    &&& fits(k, a[0] * b[2])
    &&& fits(k, a[0] * b[1])
    &&& fits(k, a[1] * b[0])
    &&& fits(k, cross_values(a, b)[0])
    &&& fits(k, cross_values(a, b)[1])
    &&& fits(k, cross_values(a, b)[2])
}

impl<T: Promote<U>, U: Numerical> CrossProduct<NVec<U, 3>> for NVec<T, 3> {
    type Output = NVec<Promoted<T, U>, 3>;

    /// Every component of the operands, every product and every difference fits
    /// the result type.
    open spec fn cross_req(self, rhs: NVec<U, 3>) -> bool {
        operands_fit(self, rhs) && cross_terms_fit(Promoted::<T, U>::kind(), self@, rhs@)
    }

    /// The cross product in the result type of `T` and `U`.
    fn cross(self, rhs: NVec<U, 3>) -> (r: Self::Output)
        ensures
            r@ == cross_values(self@, rhs@),
    {
        let (x, y) = promote_both(self, rhs);
        let a = x.components;
        let b = y.components;
        assert(a[0].value() == self@[0] && a[1].value() == self@[1] && a[2].value() == self@[2]);
        assert(b[0].value() == rhs@[0] && b[1].value() == rhs@[1] && b[2].value() == rhs@[2]);
        let c0 = a[1].times(b[2]).minus(a[2].times(b[1]));
        let c1 = a[2].times(b[0]).minus(a[0].times(b[2]));
        let c2 = a[0].times(b[1]).minus(a[1].times(b[0]));
        let r = NVec { components: [c0, c1, c2] };
        assert(r@ =~= cross_values(self@, rhs@));
        r
    }
}

/// The cross product is anticommutative: `a × b` is `b × a` negated, both have a
/// result type of the same kind.
pub proof fn lemma_cross_anticommutative<T: Promote<U>, U: Promote<T>>(a: NVec<T, 3>, b: NVec<U, 3>)
    ensures
        cross_values(a@, b@) == negated(cross_values(b@, a@)),
        Promoted::<T, U>::kind() == Promoted::<U, T>::kind(),
{
    lemma_promoted_kind_symmetric::<T, U>();
    let (x, y) = (a@, b@);
    assert(x[1] * y[2] == y[2] * x[1] && x[2] * y[1] == y[1] * x[2]) by (nonlinear_arith);
    assert(x[2] * y[0] == y[0] * x[2] && x[0] * y[2] == y[2] * x[0]) by (nonlinear_arith);
    assert(x[0] * y[1] == y[1] * x[0] && x[1] * y[0] == y[0] * x[1]) by (nonlinear_arith);
    assert(cross_values(x, y) =~= negated(cross_values(y, x)));
}

} // verus!
