use vstd::prelude::*;

verus! {

/// Thousandths of a world unit in one world unit.
pub const UNIT: i32 = 1000;

/// Nanoseconds in one second.
pub const NANOS_PER_SECOND: u64 = 1_000_000_000;

/// A position in the world, each coordinate in thousandths of a world unit.
#[derive(Clone, Copy, Debug, PartialEq, Eq, Structural)]
pub struct Point {
    pub x: i32,
    pub y: i32,
    pub z: i32,
}

impl Point {
    pub fn new(x: i32, y: i32, z: i32) -> (r: Point)
        ensures
            r == (Point { x, y, z }),
    {
        Point { x, y, z }
    }
}

/// Distance covered in `nanos` nanoseconds at `speed` thousandths per second,
/// rounded down.
pub open spec fn travel(speed: int, nanos: int) -> int {
    speed * nanos / NANOS_PER_SECOND as int
}

/// `v` held within `[lo, hi]`.
pub open spec fn clamp(v: int, lo: int, hi: int) -> int {
    if v < lo {
        lo
    } else if v > hi {
        hi
    } else {
        v
    }
}

/// Height after one interpolation step from `y` towards `target`: the gap
/// shrinks by `percent` percent, and what remains of it is rounded towards
/// the target.
pub open spec fn approach(y: int, target: int, percent: int) -> int {
    if y >= target {
        target + (y - target) * (100 - percent) / 100
    } else {
        target - (target - y) * (100 - percent) / 100
    }
}

/// Computes `travel(speed, nanos)`.
pub fn travel_distance(speed: u32, nanos: u64) -> (r: u128)
    ensures
        r == travel(speed as int, nanos as int),
        r <= u32::MAX as int * u64::MAX as int,
{
    assert(speed as int * nanos as int <= u32::MAX as int * u64::MAX as int) by (nonlinear_arith);
    (speed as u128) * (nanos as u128) / (NANOS_PER_SECOND as u128)
}

/// Computes `approach(y, target, percent)`.
pub fn approach_height(y: i32, target: i32, percent: u8) -> (r: i32)
    requires
        percent <= 100,
    ensures
        r == approach(y as int, target as int, percent as int),
        target <= y ==> target <= r <= y,
        y <= target ==> y <= r <= target,
{
    let keep = (100 - percent) as i64;
    if y >= target {
        let gap = y as i64 - target as i64;
        assert(0 <= gap * keep <= gap * 100) by (nonlinear_arith)
            requires 0 <= gap, 0 <= keep <= 100;
        let r = target as i64 + gap * keep / 100;
        r as i32
    } else {
        let gap = target as i64 - y as i64;
        assert(0 <= gap * keep <= gap * 100) by (nonlinear_arith)
            requires 0 <= gap, 0 <= keep <= 100;
        let r = target as i64 - gap * keep / 100;
        r as i32
    }
}

} // verus!
