//! Saturating signed arithmetic in the i32 range.
use vstd::prelude::*;
use crate::monster::spec_clamp_i32;

verus! {

/// `a + b`, saturated into the i32 range.
pub fn sat_add_i32(a: i32, b: i32) -> (r: i32)
    ensures
        r == spec_clamp_i32(a + b),
{
    let s: i64 = a as i64 + b as i64;
    if s > i32::MAX as i64 {
        i32::MAX
    } else if s < i32::MIN as i64 {
        i32::MIN
    } else {
        s as i32
    }
}

/// `a - b`, saturated into the i32 range.
pub fn sat_sub_i32(a: i32, b: i32) -> (r: i32)
    ensures
        r == spec_clamp_i32(a - b),
{
    let s: i64 = a as i64 - b as i64;
    if s > i32::MAX as i64 {
        i32::MAX
    } else if s < i32::MIN as i64 {
        i32::MIN
    } else {
        s as i32
    }
}

/// `a * b`, saturated into the i32 range.
pub fn sat_mul_i32(a: i32, b: i32) -> (r: i32)
    ensures
        r == spec_clamp_i32(a * b),
{
    assert(-0x8000_0000int * 0x8000_0000int <= a as int * b as int <= 0x8000_0000int * 0x8000_0000int)
        by (nonlinear_arith)
        requires
            i32::MIN <= a <= i32::MAX,
            i32::MIN <= b <= i32::MAX,
    ;
    let s: i64 = a as i64 * b as i64;
    if s > i32::MAX as i64 {
        i32::MAX
    } else if s < i32::MIN as i64 {
        i32::MIN
    } else {
        s as i32
    }
}

} // verus!
