use fighter_platformer::fighter::{
    take_damage_from_hitbox_collision, update_damage_display, Percent, Weight,
};
use fighter_platformer::hitbox::{
    Hitbox, HitboxCollision, HitboxPurpose, KnockbackAngle, Shape, Transform2,
};
use fighter_platformer::math::{cos_mdeg, sin_mdeg, Vec2};
use fighter_platformer::physics::{
    accelerate_from_gravity, accelerate_towards, apply_velocity, Collider, Gravity,
    PlacedCollider, Velocity,
};

#[test]
fn gravity_pulls_down() {
    let mut v = Velocity(Vec2 { x: 100, y: 0 });
    accelerate_from_gravity(&mut v, Gravity(-300));
    assert_eq!(v.0, Vec2 { x: 100, y: -300 });
}

#[test]
fn acceleration_clamps_at_the_target() {
    // Close to the target: snap to it rather than overshoot.
    let mut v = Velocity(Vec2 { x: 900, y: 0 });
    accelerate_towards(&mut v, Vec2 { x: 1000, y: 0 }, 500);
    assert_eq!(v.0, Vec2 { x: 1000, y: 0 });
    // Far from the target: move one acceleration step along the gap.
    let mut v = Velocity(Vec2 { x: 0, y: 0 });
    accelerate_towards(&mut v, Vec2 { x: 1000, y: 0 }, 300);
    assert_eq!(v.0, Vec2 { x: 300, y: 0 });
}

fn floor() -> PlacedCollider {
    PlacedCollider {
        collider: Collider { normal: Vec2 { x: 0, y: 1000 }, breadth: 800_000 },
        centre: Vec2 { x: 0, y: 0 },
    }
}

#[test]
fn falling_body_is_pushed_back_onto_the_floor() {
    let mut position = Vec2 { x: 0, y: 500 };
    let mut velocity = Velocity(Vec2 { x: 0, y: -1000 });
    let collision = apply_velocity(&mut position, &mut velocity, &vec![floor()]);
    // The sweep crosses the floor halfway; the pushback cancels the rest.
    assert_eq!(position, Vec2 { x: 0, y: 0 });
    assert_eq!(velocity.0, Vec2 { x: 0, y: -500 });
    assert_eq!(collision, Some(Vec2 { x: 0, y: 1000 }));
}

#[test]
fn body_missing_the_segment_is_airborne() {
    // Far to the side of the finite floor segment: no support.
    let mut position = Vec2 { x: 600_000, y: 500 };
    let mut velocity = Velocity(Vec2 { x: 0, y: -1000 });
    let collision = apply_velocity(&mut position, &mut velocity, &vec![floor()]);
    assert_eq!(collision, None);
    assert_eq!(position, Vec2 { x: 600_000, y: -500 });
    assert_eq!(velocity.0, Vec2 { x: 0, y: -1000 });
}

#[test]
fn body_moving_away_is_not_pushed() {
    let mut position = Vec2 { x: 0, y: 500 };
    let mut velocity = Velocity(Vec2 { x: 0, y: 1000 });
    let collision = apply_velocity(&mut position, &mut velocity, &vec![floor()]);
    assert_eq!(collision, None);
    assert_eq!(position, Vec2 { x: 0, y: 1500 });
}

fn lemon_hit() -> HitboxCollision {
    HitboxCollision {
        other_hitbox: Hitbox {
            shape: Shape::Circle(5000),
            purpose: HitboxPurpose::Damage {
                percent: 3000,
                base_knockback: 100,
                scale_knockback: 5000,
                angle: KnockbackAngle::Fixed(45_000),
            },
        },
        other_transform: Transform2::from_translation(Vec2 { x: 0, y: 0 }),
    }
}

#[test]
fn damage_accumulates_and_launches_diagonally() {
    let mut percent = Percent(0);
    let weight = Weight(1000);
    let launch = take_damage_from_hitbox_collision(&mut percent, &weight, &lemon_hit())
        .expect("a damage hitbox launches");
    // 3% at base 0.1, scaling 5: speed (100 + 5000 * 3000 / 100000) = 250
    // thousandths, at 45 degrees with sin/cos of 705 thousandths.
    assert_eq!(percent.0, 3000);
    assert_eq!(launch, Vec2 { x: 176, y: 176 });
}

#[test]
fn launch_speed_grows_with_accumulated_damage() {
    let weight = Weight(1000);
    let mut percent = Percent(0);
    let mut last: i64 = -1;
    // Repeated identical hits launch monotonically faster.
    for _ in 0..6 {
        let launch = take_damage_from_hitbox_collision(&mut percent, &weight, &lemon_hit())
            .expect("a damage hitbox launches");
        assert!(launch.y >= last);
        last = launch.y;
    }
    assert_eq!(percent.0, 18_000);
    assert!(last > 176);
}

#[test]
fn heavier_fighters_launch_slower() {
    let hit = lemon_hit();
    let mut p1 = Percent(0);
    let l1 = take_damage_from_hitbox_collision(&mut p1, &Weight(1000), &hit).unwrap();
    let mut p2 = Percent(0);
    let l2 = take_damage_from_hitbox_collision(&mut p2, &Weight(2000), &hit).unwrap();
    assert!(l2.y < l1.y);
}

#[test]
fn body_hitbox_deals_no_damage() {
    let mut percent = Percent(500);
    let weight = Weight(1000);
    let hit = HitboxCollision {
        other_hitbox: Hitbox { shape: Shape::Circle(5000), purpose: HitboxPurpose::Body },
        other_transform: Transform2::from_translation(Vec2 { x: 0, y: 0 }),
    };
    assert!(take_damage_from_hitbox_collision(&mut percent, &weight, &hit).is_none());
    assert_eq!(percent.0, 500);
}

#[test]
fn straight_up_angle_launches_vertically() {
    let mut percent = Percent(0);
    let weight = Weight(1000);
    let hit = HitboxCollision {
        other_hitbox: Hitbox {
            shape: Shape::Circle(5000),
            purpose: HitboxPurpose::Damage {
                percent: 1000,
                base_knockback: 1000,
                scale_knockback: 0,
                angle: KnockbackAngle::Fixed(0),
            },
        },
        other_transform: Transform2::from_translation(Vec2 { x: 0, y: 0 }),
    };
    let launch = take_damage_from_hitbox_collision(&mut percent, &weight, &hit).unwrap();
    // Zero degrees clockwise from vertical is straight up: the speed is
    // base 1000 thousandths, all of it vertical.
    assert_eq!(launch, Vec2 { x: 0, y: 1000 });
}

#[test]
fn damage_display_rounds_to_the_nearest_tenth() {
    assert_eq!(update_damage_display(&Percent(0)), (0, 0));
    assert_eq!(update_damage_display(&Percent(3000)), (3, 0));
    assert_eq!(update_damage_display(&Percent(12_345)), (12, 3));
    assert_eq!(update_damage_display(&Percent(12_355)), (12, 4));
    assert_eq!(update_damage_display(&Percent(999)), (1, 0));
    assert_eq!(update_damage_display(&Percent(949)), (0, 9));
}

#[test]
fn trigonometry_hits_the_cardinal_points_exactly() {
    assert_eq!(sin_mdeg(0), 0);
    assert_eq!(sin_mdeg(90_000), 1000);
    assert_eq!(sin_mdeg(180_000), 0);
    assert_eq!(sin_mdeg(270_000), -1000);
    assert_eq!(cos_mdeg(0), 1000);
    assert_eq!(cos_mdeg(90_000), 0);
    assert_eq!(cos_mdeg(180_000), -1000);
    assert_eq!(cos_mdeg(270_000), 0);
}
