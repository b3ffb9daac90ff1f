use crate::geometry::Point;
use vstd::prelude::*;

verus! {

/// The radius of an entity's collision sphere, in thousandths of a world unit.
#[derive(Clone, Copy, Debug, PartialEq, Eq, Structural)]
pub struct Collider(pub u32);

/// Two entities whose collision spheres overlap, named by their ids.
#[derive(Clone, Copy, Debug, PartialEq, Eq, Structural)]
pub struct CollideEvent {
    pub entity1: u64,
    pub entity2: u64,
}

/// An entity that takes part in collision detection.
#[derive(Clone, Copy, Debug, PartialEq, Eq, Structural)]
pub struct Body {
    pub entity: u64,
    pub position: Point,
    pub collider: Collider,
}

/// Square of the distance between two positions.
pub open spec fn distance_squared(a: Point, b: Point) -> int {
    (a.x - b.x) * (a.x - b.x) + (a.y - b.y) * (a.y - b.y) + (a.z - b.z) * (a.z - b.z)
}

/// The centres of the two bodies are closer than the sum of their radii.
/// Both sides are non-negative, so comparing their squares decides it.
pub open spec fn overlap(a: Body, b: Body) -> bool {
    distance_squared(a.position, b.position) < (a.collider.0 + b.collider.0) * (a.collider.0
        + b.collider.0)
}

pub open spec fn event_of(a: Body, b: Body) -> CollideEvent {
    CollideEvent { entity1: a.entity, entity2: b.entity }
}

/// Events for body `i` paired with each of the bodies `i + 1 .. end`, in order.
pub open spec fn row_events(s: Seq<Body>, i: int, end: int) -> Seq<CollideEvent>
    decreases end - i,
{
    if end <= i + 1 {
        Seq::empty()
    } else if overlap(s[i], s[end - 1]) {
        row_events(s, i, end - 1).push(event_of(s[i], s[end - 1]))
    } else {
        row_events(s, i, end - 1)
    }
}

/// Events for every pair whose first body lies before `end`, pairs in the
/// order of their first body, then of their second.
pub open spec fn collision_events(s: Seq<Body>, end: int) -> Seq<CollideEvent>
    decreases end,
{
    if end <= 0 {
        Seq::empty()
    } else {
        collision_events(s, end - 1) + row_events(s, end - 1, s.len() as int)
    }
}

fn square(d: i64) -> (r: i128)
    requires
        -0x4_0000_0000 < d < 0x4_0000_0000,
    ensures
        r == d * d,
        0 <= r < 0x10_0000_0000_0000_0000,
{
    assert(0 <= d * d < 0x10_0000_0000_0000_0000) by (nonlinear_arith)
        requires -0x4_0000_0000 < d < 0x4_0000_0000;
    (d as i128) * (d as i128)
}

/// Whether the collision spheres of two bodies overlap.
pub fn overlaps(a: &Body, b: &Body) -> (r: bool)
    ensures
        r == overlap(*a, *b),
{
    let dx = square(a.position.x as i64 - b.position.x as i64);
    let dy = square(a.position.y as i64 - b.position.y as i64);
    let dz = square(a.position.z as i64 - b.position.z as i64);
    let reach = square(a.collider.0 as i64 + b.collider.0 as i64);
    dx + dy + dz < reach
}

/// One event for each pair of bodies whose spheres overlap, each pair taken
/// once with the earlier body first.
pub fn detect_collisions(bodies: &Vec<Body>) -> (r: Vec<CollideEvent>)
    ensures
        r@ == collision_events(bodies@, bodies@.len() as int),
{
    let n = bodies.len();
    let mut events: Vec<CollideEvent> = Vec::new();
    let mut i: usize = 0;
    while i < n
        invariant
            n == bodies@.len(),
            i <= n,
            events@ == collision_events(bodies@, i as int),
        decreases n - i,
    {
        let ghost before = events@;
        let mut j: usize = i + 1;
        assert(row_events(bodies@, i as int, j as int) == Seq::<CollideEvent>::empty());
        assert(events@ =~= before + row_events(bodies@, i as int, j as int));
        while j < n
            invariant
                n == bodies@.len(),
                i < n,
                i + 1 <= j <= n,
                before == collision_events(bodies@, i as int),
                events@ == before + row_events(bodies@, i as int, j as int),
            decreases n - j,
        {
            if overlaps(&bodies[i], &bodies[j]) {
                events.push(CollideEvent { entity1: bodies[i].entity, entity2: bodies[j].entity });
            }
            j = j + 1;
            assert(events@ =~= before + row_events(bodies@, i as int, j as int));
        }
        i = i + 1;
    }
    events
}

/// Every event in row `i` names the `i`-th body first.
proof fn lemma_row_first(s: Seq<Body>, i: int, end: int)
    requires
        0 <= i < s.len(),
        end <= s.len(),
    ensures
        forall|k: int|
            0 <= k < row_events(s, i, end).len() ==> (#[trigger] row_events(s, i, end)[k]).entity1
                == s[i].entity,
    decreases end - i,
{
    if end > i + 1 {
        lemma_row_first(s, i, end - 1);
        let prev = row_events(s, i, end - 1);
        let row = row_events(s, i, end);
        assert forall|k: int| 0 <= k < row.len() implies (#[trigger] row[k]).entity1
            == s[i].entity by {
            if k < prev.len() {
                assert(row[k] == prev[k]);
            }
        }
    }
}

pub open spec fn distinct_entities(s: Seq<Body>) -> bool {
    forall|a: int, b: int|
        0 <= a < s.len() && 0 <= b < s.len() && a != b ==> (#[trigger] s[a]).entity != (
        #[trigger] s[b]).entity
}

proof fn lemma_row_contains(s: Seq<Body>, i: int, end: int, j: int)
    requires
        0 <= i < s.len(),
        0 <= j < s.len(),
        end <= s.len(),
        distinct_entities(s),
    ensures
        row_events(s, i, end).contains(event_of(s[i], s[j])) <==> (i < j < end && overlap(
            s[i],
            s[j],
        )),
    decreases end - i,
{
    let e = event_of(s[i], s[j]);
    if end > i + 1 {
        lemma_row_contains(s, i, end - 1, j);
        let prev = row_events(s, i, end - 1);
        let row = row_events(s, i, end);
        if overlap(s[i], s[end - 1]) {
            let x = event_of(s[i], s[end - 1]);
            assert(row == prev.push(x));
            assert(x == e <==> end - 1 == j) by {
                if x == e && end - 1 != j {
                    assert(s[end - 1].entity != s[j].entity);
                }
            }
            if prev.contains(e) {
                let k = choose|k: int| 0 <= k < prev.len() && prev[k] == e;
                assert(row[k] == e);
            }
            if x == e {
                assert(row[prev.len() as int] == e);
            }
            if row.contains(e) {
                let k = choose|k: int| 0 <= k < row.len() && row[k] == e;
                if k < prev.len() {
                    assert(prev[k] == e);
                }
            }
        }
    }
}

proof fn lemma_collision_contains(s: Seq<Body>, end: int, i: int, j: int)
    requires
        0 <= end <= s.len(),
        0 <= i < s.len(),
        0 <= j < s.len(),
        distinct_entities(s),
    ensures
        collision_events(s, end).contains(event_of(s[i], s[j])) <==> (i < end && i < j && overlap(
            s[i],
            s[j],
        )),
    decreases end,
{
    let e = event_of(s[i], s[j]);
    if end > 0 {
        let a = end - 1;
        lemma_collision_contains(s, a, i, j);
        let prev = collision_events(s, a);
        let row = row_events(s, a, s.len() as int);
        let all = collision_events(s, end);
        assert(all == prev + row);
        lemma_row_first(s, a, s.len() as int);
        if a == i {
            lemma_row_contains(s, i, s.len() as int, j);
        } else {
            assert(s[a].entity != s[i].entity);
            assert(!row.contains(e)) by {
                if row.contains(e) {
                    let k = choose|k: int| 0 <= k < row.len() && row[k] == e;
                    assert(row[k].entity1 == s[a].entity);
                }
            }
        }
        if prev.contains(e) {
            let k = choose|k: int| 0 <= k < prev.len() && prev[k] == e;
            assert(all[k] == e);
        }
        if row.contains(e) {
            let k = choose|k: int| 0 <= k < row.len() && row[k] == e;
            assert(all[prev.len() + k] == e);
        }
        if all.contains(e) {
            let k = choose|k: int| 0 <= k < all.len() && all[k] == e;
            if k < prev.len() {
                assert(prev[k] == e);
            } else {
                assert(row[k - prev.len()] == e);
            }
        }
    }
}

/// Among bodies with distinct entity ids, `detect_collisions` reports the
/// pair of the `i`-th and the `j`-th body (the earlier one first) if and only
/// if their collision spheres overlap.
pub proof fn lemma_collision_reported_iff_overlap(s: Seq<Body>, i: int, j: int)
    requires
        0 <= i < j < s.len(),
        distinct_entities(s),
    ensures
        collision_events(s, s.len() as int).contains(event_of(s[i], s[j])) <==> overlap(s[i], s[j]),
{
    lemma_collision_contains(s, s.len() as int, i, j);
}

/// For a distance `d` between the two centres, the spheres overlap exactly
/// when `d` is below the sum of the radii.
pub proof fn lemma_overlap_iff_distance_below_radii(a: Body, b: Body, d: int)
    requires
        0 <= d,
        d * d == distance_squared(a.position, b.position),
    ensures
        overlap(a, b) <==> d < a.collider.0 + b.collider.0,
{
    let r: int = a.collider.0 + b.collider.0;
    assert(d < r <==> d * d < r * r) by (nonlinear_arith)
        requires 0 <= d, 0 <= r;
}

} // verus!
