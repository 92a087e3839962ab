//! Division of signed numbers as the machine does it: towards zero.
use vstd::prelude::*;

verus! {

/// The quotient of `a` by `b`, rounded towards zero.
pub open spec fn truncated_quotient(a: int, b: int) -> int
    recommends
        b != 0,
{
    if a >= 0 {
        a / b
    } else {
        -((-a) / b)
    }
}

/// What is left of `a` after taking out `b` as often as
/// [`truncated_quotient`] says. It has the sign of `a`.
pub open spec fn truncated_remainder(a: int, b: int) -> int
    recommends
        b != 0,
{
    if a >= 0 {
        a % b
    } else {
        -((-a) % b)
    }
}

/// The truncated quotient and remainder make up the dividend.
pub proof fn truncated_division_recomposes(a: int, b: int)
    requires
        b != 0,
    ensures
        a == b * truncated_quotient(a, b) + truncated_remainder(a, b),
{
    if a >= 0 {
        vstd::arithmetic::div_mod::lemma_fundamental_div_mod(a, b);
    } else {
        vstd::arithmetic::div_mod::lemma_fundamental_div_mod(-a, b);
        assert(-a == b * ((-a) / b) + (-a) % b);
        assert(b * (-((-a) / b)) == -(b * ((-a) / b))) by (nonlinear_arith);
    }
}

/// The truncated quotient of two 32-bit numbers is a 32-bit number, but for
/// the least number divided by minus one.
pub proof fn truncated_quotient_fits(a: i32, b: i32)
    requires
        b != 0,
        !(a == i32::MIN && b == -1),
    ensures
        i32::MIN <= truncated_quotient(a as int, b as int) <= i32::MAX,
{
    let x: int = if a >= 0 {
        a as int
    } else {
        -(a as int)
    };
    let y: int = b as int;
    assert(x >= 0);
    if y > 0 {
        assert(0 <= x / y <= x) by (nonlinear_arith)
            requires
                x >= 0,
                y > 0,
        ;
    } else {
        assert(-x <= x / y <= 0) by (nonlinear_arith)
            requires
                x >= 0,
                y < 0,
        ;
        if y < -1 {
            assert(2 * (x / y) >= -x) by (nonlinear_arith)
                requires
                    x >= 0,
                    y < -1,
            ;
        }
    }
}

} // verus!
