//! Presentation timestamps for processed frames.
//!
//! The embedding process reads the monotonic clock at its edge and hands
//! the raw seconds/nanoseconds pair in; the verified arithmetic turns it
//! into the nanosecond timestamp stamped into frame headers, saturating at
//! the representable range instead of overflowing.

use vstd::prelude::*;

verus! {

/// Nanoseconds per second.
pub const NANOS_PER_SEC: i64 = 1_000_000_000;

/// The exact nanosecond value of a seconds/nanoseconds pair.
pub open spec fn spec_pts_nanos(sec: int, nsec: int) -> int {
    sec * 1_000_000_000 + nsec
}

/// Turns a monotonic-clock reading into the frame timestamp: the exact
/// nanosecond value where it is representable, else the nearest
/// representable bound.
pub fn pts_from_timespec(sec: i64, nsec: i64) -> (r: i64)
    requires
        0 <= nsec < 1_000_000_000,
    ensures
        i64::MIN <= spec_pts_nanos(sec as int, nsec as int) <= i64::MAX ==> r == spec_pts_nanos(
            sec as int,
            nsec as int,
        ),
        spec_pts_nanos(sec as int, nsec as int) > i64::MAX ==> r == i64::MAX,
        spec_pts_nanos(sec as int, nsec as int) < i64::MIN ==> r == i64::MIN,
{
    let s128: i128 = sec as i128;
    proof {
        assert(s128 * 1_000_000_000 <= 9_223_372_036_854_775_807i128 * 1_000_000_000 && s128
            * 1_000_000_000 >= (-9_223_372_036_854_775_808i128) * 1_000_000_000)
            by (nonlinear_arith)
            requires
                -9_223_372_036_854_775_808i128 <= s128 <= 9_223_372_036_854_775_807i128,
        ;
    }
    let total: i128 = s128 * 1_000_000_000 + nsec as i128;
    if total > i64::MAX as i128 {
        i64::MAX
    } else if total < i64::MIN as i128 {
        i64::MIN
    } else {
        total as i64
    }
}

} // verus!
