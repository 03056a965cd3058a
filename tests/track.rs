use runner::character::LANE_WIDTH;
use runner::geometry::{Point3, UNIT};
use runner::level::{
    place_obstacles, LevelGenerator, Obstacle, ObstacleType, FLOOR_LIFT, HIGH_BAR_LIFT, LOOKAHEAD,
    OBSTACLE_OFFSET, SEGMENT_SPACING, TRAILING_MARGIN, VISIBLE_SEGMENTS,
};

fn check_track(g: &LevelGenerator) {
    let segs = g.segments();
    for (i, s) in segs.iter().enumerate() {
        assert_eq!(s.position, g.next_z - (segs.len() - i) as i64 * SEGMENT_SPACING);
        if s.position == 0 {
            assert!(s.obstacles.is_empty());
        } else {
            assert!(!s.obstacles.is_empty() && s.obstacles.len() <= 2);
            for o in &s.obstacles {
                assert_eq!(o.position.z, s.position + OBSTACLE_OFFSET);
            }
        }
    }
}

#[test]
fn new_generator_lays_out_opening_run() {
    let g = LevelGenerator::with_seed(1);
    let segs = g.segments();
    assert_eq!(segs.len(), VISIBLE_SEGMENTS);
    assert_eq!(g.next_z, 15 * SEGMENT_SPACING);
    assert!(segs[0].obstacles.is_empty());
    for (i, s) in segs.iter().enumerate() {
        assert_eq!(s.position, i as i64 * 20 * UNIT);
    }
    check_track(&g);
    let fresh = LevelGenerator::new();
    assert_eq!(fresh.segments().len(), VISIBLE_SEGMENTS);
    assert!(fresh.segments()[0].obstacles.is_empty());
}

#[test]
fn update_covers_lookahead_and_prunes_behind() {
    let mut g = LevelGenerator::with_seed(2);
    for z in [0i64, 5 * UNIT, 29 * UNIT, 31 * UNIT, 1234 * UNIT, 1234 * UNIT + 1, 20_000 * UNIT] {
        g.update(z);
        check_track(&g);
        assert!(g.next_z > z + LOOKAHEAD);
        let segs = g.segments();
        assert!(!segs.is_empty());
        assert!(segs[0].position <= z);
        for s in segs {
            assert!(s.position > z - TRAILING_MARGIN);
        }
    }
}

#[test]
fn update_keeps_segments_ahead_unchanged() {
    let mut g = LevelGenerator::with_seed(3);
    g.update(100 * UNIT);
    let before: Vec<(i64, Vec<Obstacle>)> =
        g.segments().iter().map(|s| (s.position, s.obstacles.clone())).collect();
    g.update(200 * UNIT);
    for s in g.segments() {
        if let Some((_, obs)) = before.iter().find(|(p, _)| *p == s.position) {
            assert_eq!(obs, &s.obstacles);
        }
    }
}

#[test]
fn same_seed_gives_same_track() {
    let mut a = LevelGenerator::with_seed(42);
    let mut b = LevelGenerator::with_seed(42);
    a.update(3000 * UNIT);
    b.update(3000 * UNIT);
    assert_eq!(a.segments().len(), b.segments().len());
    for (x, y) in a.segments().iter().zip(b.segments()) {
        assert_eq!(x.position, y.position);
        assert_eq!(x.obstacles, y.obstacles);
    }
}

#[test]
fn all_obstacle_kinds_are_drawn() {
    let mut g = LevelGenerator::with_seed(9);
    g.update(5000 * UNIT);
    let mut seen = [false; 4];
    for s in g.segments() {
        for o in &s.obstacles {
            let k = match o.obstacle_type {
                ObstacleType::Cube => 0,
                ObstacleType::LowBar => 1,
                ObstacleType::TallWall => 2,
                ObstacleType::HighBar => 3,
            };
            seen[k] = true;
        }
    }
    assert_eq!(seen, [true; 4]);
}

#[test]
fn cubes_are_placed_in_lanes() {
    let z = 40 * UNIT;
    let obs = place_obstacles(ObstacleType::Cube, z, &vec![-1, 1], false);
    assert_eq!(obs.len(), 2);
    assert_eq!(obs[0].position, Point3::new(-LANE_WIDTH, FLOOR_LIFT, z + OBSTACLE_OFFSET));
    assert_eq!(obs[1].position, Point3::new(LANE_WIDTH, FLOOR_LIFT, z + OBSTACLE_OFFSET));
    assert!(obs.iter().all(|o| o.obstacle_type == ObstacleType::Cube));
}

#[test]
fn single_obstacle_placements() {
    let z = 60 * UNIT;
    let low = place_obstacles(ObstacleType::LowBar, z, &vec![], true);
    assert_eq!(low, vec![Obstacle { position: Point3::new(0, FLOOR_LIFT, 75 * UNIT), obstacle_type: ObstacleType::LowBar }]);
    let left = place_obstacles(ObstacleType::TallWall, z, &vec![], true);
    assert_eq!(left[0].position.x, -UNIT);
    let right = place_obstacles(ObstacleType::TallWall, z, &vec![], false);
    assert_eq!(right[0].position.x, UNIT);
    let high = place_obstacles(ObstacleType::HighBar, z, &vec![], false);
    assert_eq!(high[0].position, Point3::new(0, HIGH_BAR_LIFT, 75 * UNIT));
}

#[test]
fn obstacle_boxes_follow_size_table() {
    let at = |t| Obstacle { position: Point3::new(0, FLOOR_LIFT, 10 * UNIT), obstacle_type: t };
    let cube = at(ObstacleType::Cube).get_aabb();
    assert_eq!(cube.min, Point3::new(-UNIT / 2, FLOOR_LIFT, 10 * UNIT - UNIT / 2));
    assert_eq!(cube.max, Point3::new(UNIT / 2, FLOOR_LIFT + UNIT, 10 * UNIT + UNIT / 2));
    let low = at(ObstacleType::LowBar).get_aabb();
    assert_eq!(low.max.x - low.min.x, 6 * UNIT);
    assert_eq!(low.max.y - low.min.y, UNIT);
    let wall = at(ObstacleType::TallWall).get_aabb();
    assert_eq!(wall.max.x - wall.min.x, 4 * UNIT);
    assert_eq!(wall.max.y - wall.min.y, 2 * UNIT);
    let high = at(ObstacleType::HighBar).get_aabb();
    assert_eq!(high.max.x - high.min.x, 6 * UNIT);
    assert_eq!(high.max.y - high.min.y, 1_200_000_000);
    assert_eq!(high.max.z - high.min.z, UNIT);
}
