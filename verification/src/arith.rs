//! Small arithmetic facts shared across the crate.

use vstd::prelude::*;

verus! {

/// The product of a value within `bound_a` of zero and a non-negative value
/// at most `bound_b` lies within `bound_a * bound_b` of zero.
pub proof fn lemma_mul_range(a: int, b: int, bound_a: int, bound_b: int)
    requires
        -bound_a <= a <= bound_a,
        0 <= b <= bound_b,
    ensures
        -(bound_a * bound_b) <= a * b <= bound_a * bound_b,
{
    assert(-(bound_a * bound_b) <= a * b <= bound_a * bound_b) by (nonlinear_arith)
        requires
            -bound_a <= a <= bound_a,
            0 <= b <= bound_b,
    ;
}

} // verus!
