//! Saturating arithmetic on 64-bit amounts.

use vstd::prelude::*;

verus! {

/// The nearest number that an `i64` can hold.
pub open spec fn clamp64(n: int) -> int {
    if n > i64::MAX {
        i64::MAX as int
    } else if n < i64::MIN {
        i64::MIN as int
    } else {
        n
    }
}

fn saturate(n: i128) -> (r: i64)
    ensures
        r == clamp64(n as int),
{
    if n > i64::MAX as i128 {
        i64::MAX
    } else if n < i64::MIN as i128 {
        i64::MIN
    } else {
        n as i64
    }
}

/// `a + b`, clamped to the range of an `i64`.
pub(crate) fn sat_plus(a: i64, b: i64) -> (r: i64)
    ensures
        r == clamp64(a + b),
{
    saturate(a as i128 + b as i128)
}

/// `a - b`, clamped to the range of an `i64`.
pub(crate) fn sat_minus(a: i64, b: i64) -> (r: i64)
    ensures
        r == clamp64(a - b),
{
    saturate(a as i128 - b as i128)
}

/// `a * b`, clamped to the range of an `i64`.
pub(crate) fn sat_times(a: i64, b: i64) -> (r: i64)
    ensures
        r == clamp64(a * b),
{
    assert(-0x4000_0000_0000_0000_0000_0000_0000_0000 <= a * b
        <= 0x4000_0000_0000_0000_0000_0000_0000_0000) by (nonlinear_arith)
        requires
            -0x8000_0000_0000_0000 <= a <= 0x7fff_ffff_ffff_ffff,
            -0x8000_0000_0000_0000 <= b <= 0x7fff_ffff_ffff_ffff,
    ;
    saturate(a as i128 * b as i128)
}

/// An amount that can be held is held as it is, and one that cannot as the nearest that can.
pub proof fn law_amounts_are_held_within_bounds(n: int)
    ensures
        i64::MIN <= n <= i64::MAX ==> clamp64(n) == n,
        n > i64::MAX ==> clamp64(n) == i64::MAX,
        n < i64::MIN ==> clamp64(n) == i64::MIN,
{
}

} // verus!
