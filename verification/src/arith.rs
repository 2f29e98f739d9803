//! Bounds on products of machine integers.

use vstd::prelude::*;

verus! {

/// The product of two values of at most 64 bits is not negative, is positive
/// where both are, and leaves room in 128 bits for one more such value.
pub proof fn lemma_product_fits(a: int, b: int)
    requires
        0 <= a <= u64::MAX,
        0 <= b <= u64::MAX,
    ensures
        0 <= a * b,
        a * b + u64::MAX <= u128::MAX,
        a > 0 && b > 0 ==> a * b > 0,
{
    assert(0 <= a * b <= 0xffff_ffff_ffff_ffff * 0xffff_ffff_ffff_ffff) by (nonlinear_arith)
        requires
            0 <= a <= 0xffff_ffff_ffff_ffff,
            0 <= b <= 0xffff_ffff_ffff_ffff,
    ;
    if a > 0 && b > 0 {
        assert(a * b > 0) by (nonlinear_arith)
            requires
                a > 0,
                b > 0,
        ;
    }
}

} // verus!
