use crate::chance::chance;
use crate::geometry::{approach, approach_height, travel, travel_distance, Point};
use crate::obstacle::{spawn_obstacle, valid_obstacle_spawn};
use crate::plane::MAXIMUM_OFFSET;
use vstd::prelude::*;

verus! {

/// Number of tiles ahead of the first one; `NUMBER_OF_TILES + 1` tiles are
/// laid out at the start of a run.
pub const NUMBER_OF_TILES: u8 = 10;

/// Side length of a square ground tile: the plane's full lateral range.
pub const TILE_SIZE: i32 = 2 * MAXIMUM_OFFSET;

/// Speed at which tiles and obstacles come towards the plane, per second.
pub const TILE_SPEED: u32 = 100_000;

/// Share of the remaining height, in percent, by which a tile or obstacle
/// sinks towards its resting height each frame.
pub const TILE_INTERPOLATION: u8 = 8;

/// A freshly placed tile holds an obstacle with chance
/// `OBSTACLE_CHANCE_NUMERATOR / OBSTACLE_CHANCE_DENOMINATOR`.
pub const OBSTACLE_CHANCE_NUMERATOR: u32 = 1;

pub const OBSTACLE_CHANCE_DENOMINATOR: u32 = 2;

/// Depth of the tile with the given number: tile 0 lies under the plane and
/// each further tile one tile length ahead of it.
pub open spec fn tile_depth(tile_number: int) -> int {
    -(tile_number * TILE_SIZE)
}

/// Where a tile with the given number is placed: above the ground, from
/// where it sinks into place.
pub open spec fn tile_spawn(tile_number: int) -> Point {
    Point { x: 0, y: TILE_SIZE as i32, z: tile_depth(tile_number) as i32 }
}

/// One frame of `nanos` nanoseconds of scrolling: the position comes
/// `travel(TILE_SPEED, nanos)` closer (stopping at the largest depth that can
/// be held) and sinks towards `rest`.
pub open spec fn scrolled(p: Point, nanos: int, rest: int) -> Point {
    let z = p.z + travel(TILE_SPEED as int, nanos);
    Point {
        x: p.x,
        y: approach(p.y as int, rest, TILE_INTERPOLATION as int) as i32,
        z: if z > i32::MAX { i32::MAX } else { z as i32 },
    }
}

/// A tile or obstacle at depth `z` has passed the plane by a full tile
/// length and leaves the world.
pub open spec fn passed(z: int) -> bool {
    z >= TILE_SIZE
}

/// Where the tile with the given number is placed.
pub fn tile_position(tile_number: u8) -> (r: Point)
    ensures
        r == tile_spawn(tile_number as int),
{
    Point { x: 0, y: TILE_SIZE, z: -(tile_number as i32 * TILE_SIZE) }
}

/// The tiles laid out when a run starts, numbered from 0 to
/// `NUMBER_OF_TILES`.
pub fn initial_tiles() -> (r: Vec<Point>)
    ensures
        r@.len() == NUMBER_OF_TILES + 1,
        forall|i: int| 0 <= i < r@.len() ==> #[trigger] r@[i] == tile_spawn(i),
{
    let mut tiles: Vec<Point> = Vec::new();
    let mut i: u8 = 0;
    while i <= NUMBER_OF_TILES
        invariant
            i <= NUMBER_OF_TILES + 1,
            tiles@.len() == i,
            forall|k: int| 0 <= k < i ==> #[trigger] tiles@[k] == tile_spawn(k),
        decreases NUMBER_OF_TILES + 1 - i,
    {
        tiles.push(tile_position(i));
        i = i + 1;
    }
    tiles
}

/// Side length of the flat ground that lies under all the tiles.
pub fn ground_size() -> (r: i32)
    ensures
        r == TILE_SIZE * NUMBER_OF_TILES,
{
    TILE_SIZE * NUMBER_OF_TILES as i32
}

/// Centre of the flat ground: halfway along the initial tiles.
pub fn ground_position() -> (r: Point)
    ensures
        r == (Point { x: 0, y: 0, z: (-(NUMBER_OF_TILES / 2) * TILE_SIZE) as i32 }),
{
    Point { x: 0, y: 0, z: -(NUMBER_OF_TILES as i32 / 2) * TILE_SIZE }
}

/// Moves a position one frame of scrolling towards the plane, sinking it
/// towards the resting height `rest`.
pub fn scroll(p: Point, delta_nanos: u64, rest: i32) -> (r: Point)
    ensures
        r == scrolled(p, delta_nanos as int, rest as int),
{
    let step = travel_distance(TILE_SPEED, delta_nanos);
    let z = p.z as i128 + step as i128;
    let z = if z > i32::MAX as i128 {
        i32::MAX
    } else {
        z as i32
    };
    Point { x: p.x, y: approach_height(p.y, rest, TILE_INTERPOLATION), z }
}

/// Moves a tile one frame towards the plane; tiles rest on the ground.
pub fn move_tile(tile: Point, delta_nanos: u64) -> (r: Point)
    ensures
        r == scrolled(tile, delta_nanos as int, 0),
{
    scroll(tile, delta_nanos, 0)
}

/// Whether something at this position has passed the plane and leaves the
/// world.
pub fn has_passed(p: Point) -> (r: bool)
    ensures
        r == passed(p.z as int),
{
    p.z >= TILE_SIZE
}

/// Scrolling never moves anything away from the plane: the depth only grows,
/// so a tile or obstacle that has passed the plane stays past it, and one is
/// replaced in the first frame at whose end its depth reaches `TILE_SIZE`.
pub proof fn lemma_scrolling_never_moves_back(p: Point, nanos: nat, rest: int)
    ensures
        scrolled(p, nanos as int, rest).z >= p.z,
        passed(p.z as int) ==> passed(scrolled(p, nanos as int, rest).z as int),
{
    assert(TILE_SPEED as int * nanos >= 0) by (nonlinear_arith)
        requires nanos >= 0;
}

/// What takes the place of a tile that has left the world.
#[derive(Clone, Copy, Debug, PartialEq, Eq, Structural)]
pub struct Respawn {
    /// The new tile, placed at the far end of the world.
    pub tile: Point,
    /// The obstacle placed on the new tile, if any.
    pub obstacle: Option<Point>,
}

/// Places an obstacle on the tile with the given number when `spawn` holds,
/// and nothing otherwise.
pub fn place_objects(tile_number: u8, spawn: bool) -> (r: Option<Point>)
    ensures
        r is Some <==> spawn,
        r matches Some(p) ==> valid_obstacle_spawn(p, tile_number as int),
{
    if spawn {
        Some(spawn_obstacle(tile_number))
    } else {
        None
    }
}

/// Perhaps places an obstacle on the tile with the given number, with chance
/// `OBSTACLE_CHANCE_NUMERATOR / OBSTACLE_CHANCE_DENOMINATOR`.
pub fn spawn_objects(tile_number: u8) -> (r: Option<Point>)
    ensures
        r matches Some(p) ==> valid_obstacle_spawn(p, tile_number as int),
{
    place_objects(tile_number, chance(OBSTACLE_CHANCE_NUMERATOR, OBSTACLE_CHANCE_DENOMINATOR))
}

/// A tile is replaced exactly when it has passed the plane by a tile length:
/// then a new tile goes to the far end, numbered `NUMBER_OF_TILES`, perhaps
/// with an obstacle on it.
pub fn replace_tile(tile: Point) -> (r: Option<Respawn>)
    ensures
        r is Some <==> passed(tile.z as int),
        r matches Some(s) ==> s.tile == tile_spawn(NUMBER_OF_TILES as int),
        r matches Some(s) ==> (s.obstacle matches Some(o) ==> valid_obstacle_spawn(
            o,
            NUMBER_OF_TILES as int,
        )),
{
    if has_passed(tile) {
        Some(
            Respawn {
                tile: tile_position(NUMBER_OF_TILES),
                obstacle: spawn_objects(NUMBER_OF_TILES),
            },
        )
    } else {
        None
    }
}

} // verus!
