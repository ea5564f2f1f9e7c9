use vstd::prelude::*;

use crate::kind::Kind;
use crate::numerical::Numerical;
use crate::NVec;

verus! {

/// The sum of the squares of the first `n` values.
pub open spec fn squares_prefix(a: Seq<int>, n: int) -> int
    decreases n,
{
    if n <= 0 {
        0
    } else {
        squares_prefix(a, n - 1) + a[n - 1] * a[n - 1]
    }
}

/// The square of the Euclidean length: the sum of the squares of all values.
pub open spec fn sum_squares(a: Seq<int>) -> int {
    squares_prefix(a, a.len() as int)
}

/// Whether a float of 64 bits holds every value of the kind exactly.
pub open spec fn exact_in_f64(k: Kind) -> bool {
    k.is_float() || (k.is_integer() && k.width() <= 32)
}

impl<T: Numerical, const N: usize> NVec<T, N> {
    /// The sum of the squares of the components, computed exactly. The magnitude
    /// is its square root; it is defined for component types that a 64-bit float
    /// holds exactly.
    pub fn sum_of_squares(&self) -> (r: u128)
        requires
            exact_in_f64(T::kind()),
        ensures
            r == sum_squares(self@),
    {
        let mut acc: u128 = 0;
        let mut i: usize = 0;
        while i < N
            invariant
                i <= N,
                exact_in_f64(T::kind()),
                acc == squares_prefix(self@, i as int),
                acc <= i * 0xffff_ffff_ffff_ffffu128,
            decreases N - i,
        {
            let c = self.components[i];
            proof {
                c.lemma_value_fits();
            }
            assert(c.value() == self@[i as int]);
            let v = c.to_i128();
            assert(-0x8000_0000 <= v <= 0xffff_ffff);
            assert(v * v <= 0xffff_ffff_ffff_ffffu128) by (nonlinear_arith)
                requires
                    -0x8000_0000 <= v <= 0xffff_ffff,
            ;
            assert(0 <= v * v) by (nonlinear_arith);
            let sq = (v * v) as u128;
            assert((i + 1) * 0xffff_ffff_ffff_ffffu128 == i * 0xffff_ffff_ffff_ffffu128 + 0xffff_ffff_ffff_ffffu128)
                by (nonlinear_arith);
            assert((i + 1) * 0xffff_ffff_ffff_ffffu128 <= 0xffff_ffff_ffff_ffff_ffff_ffff_ffff_ffffu128) by (nonlinear_arith)
                requires
                    i < N,
                    N <= usize::MAX,
            ;
            acc = acc + sq;
            i = i + 1;
        }
        acc
    }
}

} // verus!
