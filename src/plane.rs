use crate::geometry::{clamp, travel, travel_distance, Point};
use vstd::prelude::*;

verus! {

/// How far the plane may move to either side of the centre line.
pub const MAXIMUM_OFFSET: i32 = 20_000;

/// Height of the plane above the ground when it flies straight ahead.
pub const ALTITUDE: i32 = 10_000;

/// Lateral speed while a steering key is held, per second.
pub const SPEED: u32 = 50_000;

/// Radius of the plane's collision sphere.
pub const PLANE_RADIUS: u32 = 3_000;

/// The plane climbs by a hundredth of the square of its offset, counted in
/// world units; in thousandths that is the square divided by this.
pub const CLIMB_DIVISOR: i64 = 100_000;

/// Lateral position after `nanos` nanoseconds of steering from `x`: the left
/// key moves the plane towards negative `x`, the right key towards positive
/// `x`, and with both held the two moves cancel.
pub open spec fn steered(x: int, left: bool, right: bool, nanos: int) -> int {
    let step = travel(SPEED as int, nanos);
    clamp(
        x - (if left { step } else { 0 }) + (if right { step } else { 0 }),
        -MAXIMUM_OFFSET as int,
        MAXIMUM_OFFSET as int,
    )
}

/// Height of the plane at lateral position `x`: it rises towards the sides.
pub open spec fn plane_height(x: int) -> int {
    ALTITUDE + x * x / CLIMB_DIVISOR as int
}

/// Where the plane starts a run.
pub fn start_position() -> (r: Point)
    ensures
        r == (Point { x: 0, y: ALTITUDE, z: 0 }),
{
    Point { x: 0, y: ALTITUDE, z: 0 }
}

/// Moves the plane sideways for one frame of `delta_nanos` nanoseconds while
/// the left and/or right key is held, keeps it within `MAXIMUM_OFFSET` of the
/// centre line, and sets its height from its new lateral position.
pub fn control_plane(position: Point, left: bool, right: bool, delta_nanos: u64) -> (r: Point)
    ensures
        r.x == steered(position.x as int, left, right, delta_nanos as int),
        r.y == plane_height(r.x as int),
        r.z == position.z,
        -MAXIMUM_OFFSET <= r.x <= MAXIMUM_OFFSET,
        ALTITUDE <= r.y <= plane_height(MAXIMUM_OFFSET as int),
{
    let step = travel_distance(SPEED, delta_nanos) as i128;
    let mut x = position.x as i128;
    if left {
        x = x - step;
    }
    if right {
        x = x + step;
    }
    if x < -MAXIMUM_OFFSET as i128 {
        x = -MAXIMUM_OFFSET as i128;
    } else if x > MAXIMUM_OFFSET as i128 {
        x = MAXIMUM_OFFSET as i128;
    }
    let x = x as i64;
    assert(0 <= x * x <= 400_000_000) by (nonlinear_arith)
        requires -20_000 <= x <= 20_000;
    let y = ALTITUDE as i64 + x * x / CLIMB_DIVISOR;
    Point { x: x as i32, y: y as i32, z: position.z }
}

/// However the plane was placed and whatever is held for however long, one
/// frame of steering leaves it within `MAXIMUM_OFFSET` of the centre line.
pub proof fn lemma_steering_stays_within_bounds(x: int, left: bool, right: bool, nanos: nat)
    ensures
        -MAXIMUM_OFFSET <= steered(x, left, right, nanos as int) <= MAXIMUM_OFFSET,
{
}

/// Holding only the right key long enough to cover the distance to the edge
/// brings the plane to rest exactly at the right bound, and holding it further
/// keeps it there; the same holds to the left.
pub proof fn lemma_held_key_pins_plane_at_bound(x: int, nanos: nat)
    requires
        -MAXIMUM_OFFSET <= x <= MAXIMUM_OFFSET,
        travel(SPEED as int, nanos as int) >= 2 * MAXIMUM_OFFSET,
    ensures
        steered(x, false, true, nanos as int) == MAXIMUM_OFFSET,
        steered(x, true, false, nanos as int) == -MAXIMUM_OFFSET,
        steered(MAXIMUM_OFFSET as int, false, true, nanos as int) == MAXIMUM_OFFSET,
        steered(-MAXIMUM_OFFSET as int, true, false, nanos as int) == -MAXIMUM_OFFSET,
{
}

} // verus!
