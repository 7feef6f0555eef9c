//! Integer helpers shared by the rules.
use vstd::prelude::*;

verus! {

/// `a / b` rounded toward zero, as Rust divides, for `b > 0`.
pub open spec fn div_trunc(a: int, b: int) -> int {
    if a >= 0 { a / b } else { -((-a) / b) }
}

/// `v` kept within `lo..=hi`.
pub open spec fn clamp(v: int, lo: int, hi: int) -> int {
    if v < lo { lo } else if v > hi { hi } else { v }
}

/// The smaller of `a` and `b`.
pub open spec fn min(a: int, b: int) -> int {
    if a < b { a } else { b }
}

/// The larger of `a` and `b`.
pub open spec fn max(a: int, b: int) -> int {
    if a > b { a } else { b }
}

/// The absolute value of `a`.
pub open spec fn abs(a: int) -> int {
    if a < 0 { -a } else { a }
}

} // verus!
