use runner::character::{
    decay_factor, Character, DECAY_PER_MS, DECAY_SCALE, HALF_WIDTH, JUMP_FORCE, LANE_WIDTH,
    NORMAL_HEIGHT, SQUAT_HEIGHT,
};
use runner::geometry::{Point3, AABB, UNIT};

fn aabb(min: (i64, i64, i64), max: (i64, i64, i64)) -> AABB {
    AABB {
        min: Point3::new(min.0, min.1, min.2),
        max: Point3::new(max.0, max.1, max.2),
    }
}

#[test]
fn new_character_stands_in_middle_lane() {
    let c = Character::new();
    assert_eq!(c.position, Point3::new(0, 0, 0));
    assert_eq!(c.lane, 0);
    assert_eq!(c.target_x, 0);
    assert!(c.is_grounded);
    assert_eq!(c.current_height, NORMAL_HEIGHT);
}

#[test]
fn update_never_leaves_character_below_floor() {
    for dt in [0u32, 1, 16, 17, 33, 100, 1000, 5000, u32::MAX] {
        let mut c = Character::new();
        c.jump();
        c.move_down(true);
        for _ in 0..50 {
            c.update(dt);
            assert!(c.position.y >= 0, "dt {}", dt);
        }
    }
}

#[test]
fn jump_sets_impulse_and_second_jump_in_air_is_ignored() {
    let mut c = Character::new();
    c.jump();
    assert_eq!(c.velocity_y, JUMP_FORCE);
    assert!(!c.is_grounded);
    c.jump();
    assert_eq!(c.velocity_y, JUMP_FORCE);
    c.update(16);
    let v = c.velocity_y;
    assert_eq!(v, JUMP_FORCE - 16_000 * 16);
    c.jump();
    assert_eq!(c.velocity_y, v);
}

#[test]
fn jump_rises_then_lands() {
    let mut c = Character::new();
    c.jump();
    c.update(100);
    // v = 8 m/s - 1.6 m/s = 6.4 m/s; y = 6.4 m/s * 0.1 s = 0.64 m
    assert_eq!(c.velocity_y, 6_400_000);
    assert_eq!(c.position.y, 640_000_000);
    let mut landed = false;
    for _ in 0..100 {
        c.update(16);
        if c.is_grounded {
            landed = true;
            break;
        }
    }
    assert!(landed);
    assert_eq!(c.position.y, 0);
    assert_eq!(c.velocity_y, 0);
}

#[test]
fn fast_fall_pulls_down_harder() {
    let mut slow = Character::new();
    let mut fast = Character::new();
    slow.jump();
    fast.jump();
    slow.update(100);
    fast.update(100);
    fast.move_down(true);
    slow.update(10);
    fast.update(10);
    assert_eq!(slow.velocity_y, 6_400_000 - 160_000);
    assert_eq!(fast.velocity_y, 6_400_000 - 1_000_000);
    assert!(fast.position.y < slow.position.y);
}

#[test]
fn lane_stays_within_bounds_for_any_moves() {
    let mut c = Character::new();
    let moves = [true, true, true, false, false, false, false, true, false, true, true, true];
    for m in moves {
        if m {
            c.move_left();
        } else {
            c.move_right();
        }
        assert!((-1..=1).contains(&c.lane));
        assert_eq!(c.target_x, c.lane as i64 * LANE_WIDTH);
    }
    assert_eq!(c.lane, 1);
    c.move_left();
    assert_eq!(c.lane, 1);
    c.move_right();
    c.move_right();
    c.move_right();
    assert_eq!(c.lane, -1);
    assert_eq!(c.target_x, -2 * UNIT);
}

#[test]
fn lateral_motion_approaches_target_without_overshoot() {
    let mut c = Character::new();
    c.move_left();
    let mut last = c.position.x;
    for _ in 0..200 {
        c.update(16);
        assert!(c.position.x >= last);
        assert!(c.position.x <= LANE_WIDTH);
        last = c.position.x;
    }
    c.update(10_000);
    assert_eq!(c.position.x, LANE_WIDTH);
}

#[test]
fn squat_shrinks_height_smoothly() {
    let mut c = Character::new();
    c.move_down(true);
    c.update(16);
    assert!(c.current_height < NORMAL_HEIGHT);
    assert!(c.current_height > SQUAT_HEIGHT);
    c.update(10_000);
    assert_eq!(c.current_height, SQUAT_HEIGHT);
    c.move_down(false);
    c.update(10_000);
    assert_eq!(c.current_height, NORMAL_HEIGHT);
}

#[test]
fn decay_factor_values() {
    assert_eq!(decay_factor(0), DECAY_SCALE);
    assert_eq!(decay_factor(1), DECAY_PER_MS);
    // exp(-5 * 0.1) = 0.6065...
    let d = decay_factor(100);
    assert!(d > 606_000_000 && d < 607_000_000, "{}", d);
    assert_eq!(decay_factor(u32::MAX), 0);
}

#[test]
fn character_box_follows_position_and_height() {
    let mut c = Character::new();
    c.move_down(true);
    c.update(10_000);
    let b = c.get_aabb(7 * UNIT);
    assert_eq!(b.min, Point3::new(-HALF_WIDTH, 0, 7 * UNIT - HALF_WIDTH));
    assert_eq!(b.max, Point3::new(HALF_WIDTH, SQUAT_HEIGHT, 7 * UNIT + HALF_WIDTH));
}

#[test]
fn collides_is_symmetric() {
    let boxes = [
        aabb((0, 0, 0), (1, 1, 1)),
        aabb((1, 1, 1), (2, 2, 2)),
        aabb((2, 0, 0), (3, 1, 1)),
        aabb((-5, -5, -5), (5, 5, 5)),
        aabb((0, 2, 0), (1, 3, 1)),
    ];
    for a in &boxes {
        for b in &boxes {
            assert_eq!(a.collides(b), b.collides(a));
        }
    }
}

#[test]
fn disjoint_x_ranges_never_collide() {
    let a = aabb((0, 0, 0), (UNIT, UNIT, UNIT));
    let b = aabb((2 * UNIT, -100, -100), (3 * UNIT, 100 * UNIT, 100 * UNIT));
    assert!(!a.collides(&b));
    assert!(!b.collides(&a));
}

#[test]
fn touching_boxes_collide() {
    let a = aabb((0, 0, 0), (1, 1, 1));
    let b = aabb((1, 1, 1), (2, 2, 2));
    assert!(a.collides(&b));
    let c = aabb((0, 0, 2), (1, 1, 3));
    assert!(!a.collides(&c));
}
