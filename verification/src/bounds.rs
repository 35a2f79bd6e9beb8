//! Integer bounds: clamping and saturation, by std's own functions on
//! `i32`.
use vstd::prelude::*;

verus! {

/// `v` clamped to `lo..=hi`.
pub open spec fn clamp_int(v: int, lo: int, hi: int) -> int {
    if v < lo {
        lo
    } else if v > hi {
        hi
    } else {
        v
    }
}

/// `v` kept within the range of `i32`.
pub open spec fn saturate_i32(v: int) -> int {
    clamp_int(v, i32::MIN as int, i32::MAX as int)
}

/// `i32::clamp`: by its documentation, `lo` when `v < lo`, `hi` when
/// `v > hi`, else `v`; it panics when `lo > hi`, which `requires` leaves out.
#[verifier::external_body]
pub(crate) fn clamp_i32(v: i32, lo: i32, hi: i32) -> (r: i32)
    requires
        lo <= hi,
    ensures
        r == clamp_int(v as int, lo as int, hi as int),
{
    v.clamp(lo, hi)
}

/// `i32::saturating_sub`: by its documentation, `a - b` held within the
/// range of `i32`.
#[verifier::external_body]
pub(crate) fn saturating_sub_i32(a: i32, b: i32) -> (r: i32)
    ensures
        r == saturate_i32(a - b),
{
    a.saturating_sub(b)
}

} // verus!
