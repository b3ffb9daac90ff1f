use planes::collider::{detect_collisions, overlaps};
use planes::obstacle::{despawn_obstacle, move_obstacle, obstacle_position};
use planes::plane::{control_plane, start_position, ALTITUDE, MAXIMUM_OFFSET, PLANE_RADIUS};
use planes::state::{button_shade, detect_collision, menu, ButtonInteraction, ButtonShade};
use planes::world::{
    ground_position, ground_size, has_passed, initial_tiles, move_tile, place_objects, replace_tile,
    spawn_objects, tile_position, NUMBER_OF_TILES, TILE_SIZE,
};
use planes::{spawn_obstacle, AppState, Body, CollideEvent, Collider, Point};

fn body(entity: u64, x: i32, y: i32, z: i32, radius: u32) -> Body {
    Body { entity, position: Point::new(x, y, z), collider: Collider(radius) }
}

#[test]
fn spheres_touching_do_not_collide() {
    let a = body(1, 0, 0, 0, 3000);
    let b = body(2, 5000, 0, 0, 2000);
    assert!(!overlaps(&a, &b));
    let c = body(3, 4999, 0, 0, 2000);
    assert!(overlaps(&a, &c));
}

#[test]
fn collision_uses_euclidean_distance() {
    let a = body(1, 0, 0, 0, 2500);
    let b = body(2, 3000, 4000, 0, 2500);
    assert!(!overlaps(&a, &b));
    let c = body(3, 3000, 4000, 0, 2501);
    assert!(overlaps(&a, &c));
    let d = body(4, 0, -3000, 4000, 2501);
    assert!(overlaps(&a, &d));
    assert!(!overlaps(&b, &d));
}

#[test]
fn collision_extreme_coordinates_do_not_overflow() {
    let a = body(1, i32::MIN, i32::MIN, i32::MIN, u32::MAX);
    let b = body(2, i32::MAX, i32::MAX, i32::MAX, u32::MAX);
    assert!(overlaps(&a, &b));
    let c = body(3, i32::MIN, i32::MIN, i32::MIN, 1 << 30);
    let d = body(4, i32::MAX, i32::MAX, i32::MAX, 1 << 30);
    assert!(!overlaps(&c, &d));
    assert!(overlaps(&a, &a));
}

#[test]
fn collisions_reported_once_per_overlapping_pair() {
    let bodies = vec![
        body(1, 0, 0, 0, 1000),
        body(2, 1000, 0, 0, 1000),
        body(3, 100_000, 0, 0, 1000),
    ];
    let events = detect_collisions(&bodies);
    assert_eq!(events, vec![CollideEvent { entity1: 1, entity2: 2 }]);
}

#[test]
fn collisions_in_pair_order() {
    let bodies = vec![body(7, 0, 0, 0, 1000), body(8, 0, 10, 0, 1000), body(9, 10, 0, 0, 1000)];
    let events = detect_collisions(&bodies);
    assert_eq!(
        events,
        vec![
            CollideEvent { entity1: 7, entity2: 8 },
            CollideEvent { entity1: 7, entity2: 9 },
            CollideEvent { entity1: 8, entity2: 9 },
        ]
    );
}

#[test]
fn no_collisions_among_fewer_than_two_bodies() {
    assert!(detect_collisions(&vec![]).is_empty());
    assert!(detect_collisions(&vec![body(1, 0, 0, 0, 5000)]).is_empty());
}

#[test]
fn button_shades() {
    assert_eq!(button_shade(ButtonInteraction::Idle), ButtonShade::Normal);
    assert_eq!(button_shade(ButtonInteraction::Hovered), ButtonShade::Active);
    assert_eq!(button_shade(ButtonInteraction::Clicked), ButtonShade::Active);
}

#[test]
fn click_starts_the_game() {
    let seen = vec![ButtonInteraction::Hovered, ButtonInteraction::Clicked];
    assert_eq!(menu(AppState::Menu, &seen), AppState::Game);
    let hover = vec![ButtonInteraction::Hovered, ButtonInteraction::Idle];
    assert_eq!(menu(AppState::Menu, &hover), AppState::Menu);
    assert_eq!(menu(AppState::Menu, &vec![]), AppState::Menu);
}

#[test]
fn plane_collision_returns_to_menu() {
    let others = vec![CollideEvent { entity1: 4, entity2: 5 }];
    assert_eq!(detect_collision(AppState::Game, 3, &others), AppState::Game);
    let hit_second = vec![
        CollideEvent { entity1: 4, entity2: 5 },
        CollideEvent { entity1: 6, entity2: 3 },
    ];
    assert_eq!(detect_collision(AppState::Game, 3, &hit_second), AppState::Menu);
    let hit_first = vec![CollideEvent { entity1: 3, entity2: 9 }];
    assert_eq!(detect_collision(AppState::Game, 3, &hit_first), AppState::Menu);
    assert_eq!(detect_collision(AppState::Game, 3, &vec![]), AppState::Game);
}

#[test]
fn plane_starts_level_in_the_centre() {
    assert_eq!(start_position(), Point::new(0, ALTITUDE, 0));
    assert_eq!(PLANE_RADIUS, 3000);
}

#[test]
fn steering_moves_and_lifts_the_plane() {
    let p = control_plane(Point::new(0, ALTITUDE, 0), false, true, 16_000_000);
    assert_eq!(p, Point::new(800, 10_006, 0));
    let q = control_plane(Point::new(0, ALTITUDE, 7), true, false, 16_000_000);
    assert_eq!(q, Point::new(-800, 10_006, 7));
}

#[test]
fn both_keys_cancel() {
    let p = control_plane(Point::new(1000, 0, 0), true, true, 16_000_000);
    assert_eq!(p, Point::new(1000, 10_010, 0));
    let q = control_plane(Point::new(1000, 0, 0), false, false, 16_000_000);
    assert_eq!(q, Point::new(1000, 10_010, 0));
}

#[test]
fn steering_is_clamped_under_sustained_input() {
    let mut p = Point::new(19_900, ALTITUDE, 0);
    for _ in 0..100 {
        p = control_plane(p, false, true, 16_000_000);
        assert!(p.x <= MAXIMUM_OFFSET);
    }
    assert_eq!(p, Point::new(MAXIMUM_OFFSET, 14_000, 0));
    let q = control_plane(Point::new(-500, 0, 0), true, false, 1_000_000_000);
    assert_eq!(q, Point::new(-MAXIMUM_OFFSET, 14_000, 0));
    let r = control_plane(Point::new(0, 0, 0), true, false, u64::MAX);
    assert_eq!(r.x, -MAXIMUM_OFFSET);
}

#[test]
fn plane_placed_outside_is_pulled_back() {
    let p = control_plane(Point::new(i32::MAX, 0, 0), false, false, 0);
    assert_eq!(p.x, MAXIMUM_OFFSET);
}

#[test]
fn tiles_scroll_and_sink() {
    let t = move_tile(Point::new(0, 40_000, -400_000), 10_000_000);
    assert_eq!(t, Point::new(0, 36_800, -399_000));
    let u = move_tile(Point::new(3, 1, 0), 0);
    assert_eq!(u, Point::new(3, 0, 0));
    let v = move_tile(Point::new(0, 99, 0), 0);
    assert_eq!(v.y, 91);
}

#[test]
fn scrolling_stops_at_the_largest_depth() {
    let t = move_tile(Point::new(0, 0, i32::MAX - 10), 1_000_000_000);
    assert_eq!(t.z, i32::MAX);
    let u = move_tile(Point::new(0, 0, 0), u64::MAX);
    assert_eq!(u.z, i32::MAX);
}

#[test]
fn obstacles_sink_to_altitude() {
    let o = move_obstacle(Point::new(5, 50_000, -400_000), 10_000_000);
    assert_eq!(o, Point::new(5, 46_800, -399_000));
    let below = move_obstacle(Point::new(0, 0, 0), 0);
    assert_eq!(below, Point::new(0, 800, 0));
    let rest = move_obstacle(Point::new(0, ALTITUDE, 0), 0);
    assert_eq!(rest.y, ALTITUDE);
}

#[test]
fn obstacles_leave_past_the_threshold() {
    assert!(!despawn_obstacle(Point::new(0, 0, TILE_SIZE - 1)));
    assert!(despawn_obstacle(Point::new(0, 0, TILE_SIZE)));
    assert!(despawn_obstacle(Point::new(0, 0, i32::MAX)));
}

#[test]
fn tile_recycled_exactly_at_threshold() {
    assert!(!has_passed(Point::new(0, 0, 39_999)));
    assert!(replace_tile(Point::new(0, 0, 39_999)).is_none());
    assert!(replace_tile(Point::new(0, 0, -400_000)).is_none());
    let r = replace_tile(Point::new(0, 0, 40_000)).unwrap();
    assert_eq!(r.tile, Point::new(0, 40_000, -400_000));
    if let Some(o) = r.obstacle {
        assert_eq!((o.y, o.z), (50_000, -400_000));
        assert!(-20_000 <= o.x && o.x < 20_000);
    }
}

#[test]
fn tile_recycled_after_scrolling_across_threshold() {
    let before = Point::new(0, 0, 39_500);
    assert!(replace_tile(before).is_none());
    let after = move_tile(before, 5_000_000);
    assert_eq!(after.z, 40_000);
    assert!(replace_tile(after).is_some());
}

#[test]
fn tile_layout() {
    assert_eq!(tile_position(0), Point::new(0, 40_000, 0));
    assert_eq!(tile_position(NUMBER_OF_TILES), Point::new(0, 40_000, -400_000));
    assert_eq!(tile_position(255), Point::new(0, 40_000, -10_200_000));
    let tiles = initial_tiles();
    assert_eq!(tiles.len(), 11);
    assert_eq!(tiles[3], Point::new(0, 40_000, -120_000));
    for (i, t) in tiles.iter().enumerate() {
        assert_eq!(*t, tile_position(i as u8));
    }
    assert_eq!(ground_size(), 400_000);
    assert_eq!(ground_position(), Point::new(0, 0, -200_000));
}

#[test]
fn obstacle_positions() {
    assert_eq!(obstacle_position(10, -3), Point::new(-3, 50_000, -400_000));
    assert_eq!(obstacle_position(0, 19_999), Point::new(19_999, 50_000, 0));
}

#[test]
fn obstacles_spawn_within_the_tile_width() {
    let mut xs = Vec::new();
    for _ in 0..200 {
        let o = spawn_obstacle(4);
        assert!(-20_000 <= o.x && o.x < 20_000);
        assert_eq!((o.y, o.z), (50_000, -160_000));
        xs.push(o.x);
    }
    assert!(xs.iter().any(|x| *x != -20_000));
    assert!(xs.iter().any(|x| *x != xs[0]));
}

#[test]
fn obstacles_appear_on_some_tiles_only() {
    let mut some = 0;
    for _ in 0..200 {
        if let Some(o) = spawn_objects(2) {
            assert_eq!((o.y, o.z), (50_000, -80_000));
            assert!(-20_000 <= o.x && o.x < 20_000);
            some += 1;
        }
    }
    assert!(some > 0 && some < 200);
}

#[test]
fn obstacle_placed_only_when_drawn() {
    assert!(place_objects(5, false).is_none());
    let o = place_objects(5, true).unwrap();
    assert_eq!((o.y, o.z), (50_000, -200_000));
    assert!(-20_000 <= o.x && o.x < 20_000);
}
