use fighter_platformer::hitbox::{
    detect_hitbox_overlaps, detect_overlaps_between_actors, intersection_of_line_segments,
    place_hitboxes, Hitbox, HitboxCollision, HitboxPurpose, PlacedHitbox, Shape, Transform2,
};
use fighter_platformer::projectile::despawn_collided_projectile;
use fighter_platformer::math::{isqrt, Vec2};
use fighter_platformer::megaman::MegaMan;

fn at(x: i64, y: i64) -> Transform2 {
    Transform2::from_translation(Vec2 { x, y })
}

#[test]
fn integer_square_root_rounds_down() {
    assert_eq!(isqrt(0), 0);
    assert_eq!(isqrt(1), 1);
    assert_eq!(isqrt(15), 3);
    assert_eq!(isqrt(16), 4);
    assert_eq!(isqrt(1_000_000), 1000);
}

#[test]
fn unit_circles_three_units_apart_pass_at_one_unit() {
    // Two unit circles (radius 1000 steps) with centres 3000 steps apart:
    // the nearest pass is exactly one unit, and no collision.
    let pass = Shape::nearest_pass(&Shape::Circle(1000), &at(0, 0), &Shape::Circle(1000), &at(3000, 0));
    assert_eq!(pass.distance, 1000);
    assert!(!pass.is_collision());
    assert_eq!(pass.midpoint, Vec2 { x: 1500, y: 0 });
}

#[test]
fn overlapping_unit_circles_pass_negative() {
    let pass = Shape::nearest_pass(&Shape::Circle(1000), &at(0, 0), &Shape::Circle(1000), &at(500, 0));
    assert_eq!(pass.distance, -1500);
    assert!(pass.is_collision());
}

#[test]
fn circle_against_pill_side_uses_perpendicular() {
    // A vertical pill of half-length 2 units at the origin; a unit circle
    // 3 units to the side passes at 3 - 1 - 1 = 1 unit.
    let pill = Shape::Pill { major_radius: 2000, minor_radius: 1000 };
    let pass = Shape::nearest_pass(&Shape::Circle(1000), &at(3000, 0), &pill, &at(0, 0));
    assert_eq!(pass.distance, 1000);
    // Swapping the arguments gives the same separation.
    let pass2 = Shape::nearest_pass(&pill, &at(0, 0), &Shape::Circle(1000), &at(3000, 0));
    assert_eq!(pass2.distance, 1000);
}

#[test]
fn circle_past_pill_end_uses_endpoint() {
    // The circle sits beyond the pill's top endpoint (0, 2000): distance
    // from (0, 5000) to the endpoint is 3000, minus both radii.
    let pill = Shape::Pill { major_radius: 2000, minor_radius: 1000 };
    let pass = Shape::nearest_pass(&Shape::Circle(1000), &at(0, 5000), &pill, &at(0, 0));
    assert_eq!(pass.distance, 1000);
}

#[test]
fn crossing_pills_overlap_fully() {
    // Two vertical pills whose cores share the segment around the origin.
    let p1 = Shape::Pill { major_radius: 2000, minor_radius: 500 };
    let p2 = Shape::Pill { major_radius: 2000, minor_radius: 700 };
    let pass = Shape::nearest_pass(&p1, &at(0, 0), &p2, &at(0, 1000));
    assert_eq!(pass.distance, -1200);
    assert!(pass.is_collision());
}

#[test]
fn separated_pills_reduce_to_endpoints() {
    let p1 = Shape::Pill { major_radius: 1000, minor_radius: 500 };
    let p2 = Shape::Pill { major_radius: 1000, minor_radius: 500 };
    // Side by side, 4 units apart: nearest pass 4000 - 500 - 500.
    let pass = Shape::nearest_pass(&p1, &at(0, 0), &p2, &at(4000, 0));
    assert_eq!(pass.distance, 3000);
    assert!(!pass.is_collision());
}

#[test]
fn segment_intersection_crossing() {
    let ip = intersection_of_line_segments(
        &Vec2 { x: -1000, y: 0 },
        &Vec2 { x: 1000, y: 0 },
        &Vec2 { x: 0, y: -1000 },
        &Vec2 { x: 0, y: 1000 },
    );
    assert_eq!(ip, Some(Vec2 { x: 0, y: 0 }));
}

#[test]
fn segment_intersection_parallel_is_none() {
    let ip = intersection_of_line_segments(
        &Vec2 { x: 0, y: 0 },
        &Vec2 { x: 1000, y: 0 },
        &Vec2 { x: 0, y: 500 },
        &Vec2 { x: 1000, y: 500 },
    );
    assert_eq!(ip, None);
}

#[test]
fn segment_intersection_collinear_overlap() {
    let ip = intersection_of_line_segments(
        &Vec2 { x: 0, y: 0 },
        &Vec2 { x: 2000, y: 0 },
        &Vec2 { x: 1000, y: 0 },
        &Vec2 { x: 3000, y: 0 },
    );
    assert_eq!(ip, Some(Vec2 { x: 1000, y: 0 }));
}

#[test]
fn segment_intersection_diverging_is_none() {
    let ip = intersection_of_line_segments(
        &Vec2 { x: 0, y: 0 },
        &Vec2 { x: 1000, y: 0 },
        &Vec2 { x: 2000, y: 1000 },
        &Vec2 { x: 2000, y: 2000 },
    );
    assert_eq!(ip, None);
}

fn body_circle(radius: i64, x: i64, y: i64) -> PlacedHitbox {
    PlacedHitbox {
        hitbox: Hitbox { shape: Shape::Circle(radius), purpose: HitboxPurpose::Body },
        transform: at(x, y),
    }
}

#[test]
fn group_overlap_picks_the_deepest_pair() {
    let g1 = vec![body_circle(1000, 0, 0), body_circle(1000, 100, 0)];
    let g2 = vec![body_circle(1000, 500, 0), body_circle(1000, 4000, 0)];
    let best = detect_hitbox_overlaps(&g1, &g2).expect("groups overlap");
    // The deepest pair is (100, 0) against (500, 0): 400 - 2000.
    assert_eq!(best.distance, -1600);
}

#[test]
fn placed_body_hitboxes_follow_the_actor() {
    let body = MegaMan::spawn_body_hitboxes();
    // A double-size actor at the origin stretches and moves the local box.
    let g = place_hitboxes(Vec2 { x: 0, y: 0 }, Vec2 { x: 2000, y: 2000 }, &vec![body]);
    assert_eq!(g.len(), 1);
    assert_eq!(g[0].transform.translation, Vec2 { x: -2000, y: 41_500 });
    assert_eq!(g[0].transform.scale, Vec2 { x: 2000, y: 2000 });
    // A facing flip mirrors the horizontal offset.
    let flipped = place_hitboxes(Vec2 { x: 0, y: 0 }, Vec2 { x: -2000, y: 2000 }, &vec![body]);
    assert_eq!(flipped[0].transform.translation, Vec2 { x: 2000, y: 41_500 });
}

#[test]
fn adjacent_actors_bodies_overlap_distant_ones_do_not() {
    let body = MegaMan::spawn_body_hitboxes();
    let scale = Vec2 { x: 2000, y: 2000 };
    let g1 = place_hitboxes(Vec2 { x: 0, y: 0 }, scale, &vec![body]);
    let near = place_hitboxes(Vec2 { x: 10_000, y: 0 }, scale, &vec![body]);
    let best = detect_hitbox_overlaps(&g1, &near).expect("bodies standing together overlap");
    assert!(best.is_collision());
    assert_eq!(best.distance, -52_000);
    let far = place_hitboxes(Vec2 { x: 300_000, y: 0 }, scale, &vec![body]);
    assert!(detect_hitbox_overlaps(&g1, &far).is_none());
}

#[test]
fn actor_pairing_reports_each_colliding_pair_once() {
    // Three actors: the first two stand inside each other, the third is
    // far away; only the (first, second) pair is reported, and no group
    // is ever tested against its own actor's.
    let groups = vec![
        vec![body_circle(1000, 0, 0)],
        vec![body_circle(1000, 500, 0)],
        vec![body_circle(1000, 50_000, 0)],
    ];
    let report = detect_overlaps_between_actors(&groups);
    assert_eq!(report.len(), 1);
    assert_eq!(report[0].0, 0);
    assert_eq!(report[0].1, 1);
    assert_eq!(report[0].2.distance, -1500);
}

#[test]
fn projectiles_despawn_when_struck() {
    assert!(!despawn_collided_projectile(&vec![]));
    let hit = HitboxCollision {
        other_hitbox: Hitbox { shape: Shape::Circle(1000), purpose: HitboxPurpose::Body },
        other_transform: at(0, 0),
    };
    assert!(despawn_collided_projectile(&vec![hit]));
}

#[test]
fn group_overlap_none_when_apart() {
    let g1 = vec![body_circle(1000, 0, 0)];
    let g2 = vec![body_circle(1000, 10_000, 0)];
    assert!(detect_hitbox_overlaps(&g1, &g2).is_none());
}
