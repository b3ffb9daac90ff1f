use crate::chance::in_range;
use crate::geometry::Point;
use crate::plane::ALTITUDE;
use crate::world::{has_passed, passed, scroll, scrolled, tile_depth, TILE_SIZE};
use vstd::prelude::*;

verus! {

/// Where an obstacle for the tile with the given number appears, at lateral
/// position `x`: above the tile, from where it sinks to the plane's altitude.
pub open spec fn obstacle_spawn(tile_number: int, x: int) -> Point {
    Point { x: x as i32, y: (TILE_SIZE + ALTITUDE) as i32, z: tile_depth(tile_number) as i32 }
}

/// `p` is where an obstacle for the tile may appear: over the tile, at a
/// lateral position within the tile's width.
pub open spec fn valid_obstacle_spawn(p: Point, tile_number: int) -> bool {
    &&& -TILE_SIZE / 2 <= p.x < TILE_SIZE / 2
    &&& p == obstacle_spawn(tile_number, p.x as int)
}

/// Where an obstacle for the tile with the given number appears at lateral
/// position `x`.
pub fn obstacle_position(tile_number: u8, x: i32) -> (r: Point)
    ensures
        r == obstacle_spawn(tile_number as int, x as int),
{
    Point { x, y: TILE_SIZE + ALTITUDE, z: -(tile_number as i32 * TILE_SIZE) }
}

/// Places an obstacle for the tile with the given number, at a random
/// lateral position within the tile's width.
pub fn spawn_obstacle(tile_number: u8) -> (r: Point)
    ensures
        valid_obstacle_spawn(r, tile_number as int),
{
    let x = in_range(-TILE_SIZE / 2, TILE_SIZE / 2);
    obstacle_position(tile_number, x)
}

/// Moves an obstacle one frame towards the plane, sinking it towards the
/// plane's altitude.
pub fn move_obstacle(obstacle: Point, delta_nanos: u64) -> (r: Point)
    ensures
        r == scrolled(obstacle, delta_nanos as int, ALTITUDE as int),
{
    scroll(obstacle, delta_nanos, ALTITUDE)
}

/// An obstacle is removed once it has passed the plane by a tile length.
pub fn despawn_obstacle(obstacle: Point) -> (r: bool)
    ensures
        r == passed(obstacle.z as int),
{
    has_passed(obstacle)
}

} // verus!
