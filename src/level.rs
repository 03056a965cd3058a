//! The streamed track: segments laid end to end ahead of the player,
//! each carrying the obstacles placed on it, and dropped once passed.
use vstd::prelude::*;
use crate::geometry::{AABB, Point3, UNIT, MAX_DISTANCE};
use crate::character::LANE_WIDTH;

verus! {

/// Length of one track segment.
pub const SEGMENT_SPACING: i64 = 20_000_000_000;

/// Number of segments laid out by a new generator.
pub const VISIBLE_SEGMENTS: usize = 15;

/// Distance from a segment's start to the obstacles placed on it.
pub const OBSTACLE_OFFSET: i64 = 15_000_000_000;

/// Distance ahead of the player that is always covered by segments.
pub const LOOKAHEAD: i64 = 1_000_000_000_000;

/// Distance behind the player past which segments are dropped.
pub const TRAILING_MARGIN: i64 = 30_000_000_000;

/// Height at which floor obstacles rest (a millimetre above the floor).
pub const FLOOR_LIFT: i64 = 1_000_000;

/// Height of the underside of a high bar.
pub const HIGH_BAR_LIFT: i64 = 800_000_000;

/// Farthest frontier that updates within `MAX_DISTANCE` can produce.
pub const MAX_FRONTIER: i64 = MAX_DISTANCE + LOOKAHEAD + SEGMENT_SPACING;

#[verifier::external_type_specification]
#[verifier::external_body]
pub struct ExStdRng(rand::rngs::StdRng);

/// Relies on rand's `Rng::gen_range` over an inclusive range, which
/// returns a value inside the range (and panics only on an empty one).
#[verifier::external_body]
fn random_range(rng: &mut rand::rngs::StdRng, lo: i32, hi: i32) -> (r: i32)
    requires
        lo <= hi,
    ensures
        lo <= r <= hi,
{
    rand::Rng::gen_range(rng, lo..=hi)
}

/// Relies on rand's `SeedableRng::from_entropy`: a generator seeded from
/// the operating system (it panics only if the system has no entropy to
/// give).
#[verifier::external_body]
fn rng_from_entropy() -> rand::rngs::StdRng {
    rand::SeedableRng::from_entropy()
}

/// Relies on rand's `SeedableRng::seed_from_u64`: a generator whose draws
/// are fixed by `seed`.
#[verifier::external_body]
fn rng_from_seed(seed: u64) -> rand::rngs::StdRng {
    rand::SeedableRng::seed_from_u64(seed)
}

/// The kinds of obstacle.
#[derive(Clone, Copy, Debug, PartialEq, Eq, Structural)]
pub enum ObstacleType {
    Cube,
    LowBar,
    TallWall,
    HighBar,
}

/// An obstacle on the track; `position` is the centre of its base.
#[derive(Clone, Copy, Debug, PartialEq, Eq, Structural)]
pub struct Obstacle {
    pub position: Point3,
    pub obstacle_type: ObstacleType,
}

/// Half of an obstacle's width (x), by kind.
pub open spec fn half_width_of(t: ObstacleType) -> i64 {
    match t {
        ObstacleType::Cube => 500_000_000,
        ObstacleType::LowBar => 3_000_000_000,
        ObstacleType::TallWall => 2_000_000_000,
        ObstacleType::HighBar => 3_000_000_000,
    }
}

/// An obstacle's height (y), by kind.
pub open spec fn height_of(t: ObstacleType) -> i64 {
    match t {
        ObstacleType::Cube => 1_000_000_000,
        ObstacleType::LowBar => 1_000_000_000,
        ObstacleType::TallWall => 2_000_000_000,
        ObstacleType::HighBar => 1_200_000_000,
    }
}

/// Half of an obstacle's depth (z); the same for every kind.
pub const OBSTACLE_HALF_DEPTH: i64 = 500_000_000;

impl Obstacle {
    /// Positions that the generator can produce.
    pub open spec fn wf(self) -> bool {
        &&& -LANE_WIDTH <= self.position.x <= LANE_WIDTH
        &&& 0 <= self.position.y <= UNIT
        &&& 0 <= self.position.z <= MAX_FRONTIER + OBSTACLE_OFFSET
    }

    /// The obstacle's box: its size is a fixed table by kind.
    pub open spec fn aabb(self) -> AABB {
        let hw = half_width_of(self.obstacle_type);
        AABB {
            min: Point3 {
                x: (self.position.x - hw) as i64,
                y: self.position.y,
                z: (self.position.z - OBSTACLE_HALF_DEPTH) as i64,
            },
            max: Point3 {
                x: (self.position.x + hw) as i64,
                y: (self.position.y + height_of(self.obstacle_type)) as i64,
                z: (self.position.z + OBSTACLE_HALF_DEPTH) as i64,
            },
        }
    }

    /// The obstacle's bounding box.
    pub fn get_aabb(&self) -> (r: AABB)
        requires
            self.wf(),
        ensures
            r == self.aabb(),
            r.wf(),
    {
        let (hw, h): (i64, i64) = match self.obstacle_type {
            ObstacleType::Cube => (500_000_000, 1_000_000_000),
            ObstacleType::LowBar => (3_000_000_000, 1_000_000_000),
            ObstacleType::TallWall => (2_000_000_000, 2_000_000_000),
            ObstacleType::HighBar => (3_000_000_000, 1_200_000_000),
        };
        AABB {
            min: Point3::new(
                self.position.x - hw,
                self.position.y,
                self.position.z - OBSTACLE_HALF_DEPTH,
            ),
            max: Point3::new(
                self.position.x + hw,
                self.position.y + h,
                self.position.z + OBSTACLE_HALF_DEPTH,
            ),
        }
    }
}

/// An obstacle of kind `t` at `(x, y)` on the segment starting at `z`.
pub open spec fn obstacle_at(t: ObstacleType, x: int, y: int, z: int) -> Obstacle {
    Obstacle { position: Point3 { x: x as i64, y: y as i64, z: (z + OBSTACLE_OFFSET) as i64 }, obstacle_type: t }
}

/// The obstacles placed on the segment at `z` for a drawn kind, the lanes
/// drawn for cubes, and the side drawn for a tall wall.
pub open spec fn placement(t: ObstacleType, z: int, lanes: Seq<i8>, left_side: bool) -> Seq<Obstacle> {
    match t {
        ObstacleType::Cube => lanes.map_values(|l: i8| obstacle_at(t, l * LANE_WIDTH, FLOOR_LIFT as int, z)),
        ObstacleType::LowBar => seq![obstacle_at(t, 0, FLOOR_LIFT as int, z)],
        ObstacleType::TallWall => seq![obstacle_at(t, if left_side { -UNIT } else { UNIT as int }, FLOOR_LIFT as int, z)],
        ObstacleType::HighBar => seq![obstacle_at(t, 0, HIGH_BAR_LIFT as int, z)],
    }
}

/// Draws that `placement` accepts: one or two cubes, each in a lane.
pub open spec fn valid_draws(t: ObstacleType, lanes: Seq<i8>) -> bool {
    t == ObstacleType::Cube ==> {
        &&& 1 <= lanes.len() <= 2
        &&& forall|i: int| 0 <= i < lanes.len() ==> -1 <= #[trigger] lanes[i] <= 1
    }
}

/// A cube resting in one of the three lanes of the segment at `z`.
pub open spec fn is_lane_cube(o: Obstacle, z: int) -> bool {
    &&& o.obstacle_type == ObstacleType::Cube
    &&& o.position.x == -LANE_WIDTH || o.position.x == 0 || o.position.x == LANE_WIDTH
    &&& o.position.y == FLOOR_LIFT
    &&& o.position.z == z + OBSTACLE_OFFSET
}

/// What the generator may place on the segment at `z`: one or two cubes,
/// each in a lane; one low bar across all lanes; one tall wall flush
/// against either side; or one high bar, centred and raised.
pub open spec fn is_generated(obs: Seq<Obstacle>, z: int) -> bool {
    ||| {
        &&& 1 <= obs.len() <= 2
        &&& forall|i: int| 0 <= i < obs.len() ==> is_lane_cube(#[trigger] obs[i], z)
    }
    ||| obs == seq![obstacle_at(ObstacleType::LowBar, 0, FLOOR_LIFT as int, z)]
    ||| obs == seq![obstacle_at(ObstacleType::TallWall, -UNIT, FLOOR_LIFT as int, z)]
    ||| obs == seq![obstacle_at(ObstacleType::TallWall, UNIT as int, FLOOR_LIFT as int, z)]
    ||| obs == seq![obstacle_at(ObstacleType::HighBar, 0, HIGH_BAR_LIFT as int, z)]
}

/// Placed obstacles are what the generator may produce.
pub proof fn lemma_placement_generated(t: ObstacleType, z: int, lanes: Seq<i8>, left_side: bool)
    requires
        valid_draws(t, lanes),
        0 <= z <= MAX_FRONTIER,
    ensures
        is_generated(placement(t, z, lanes, left_side), z),
{
    if t == ObstacleType::Cube {
        let obs = placement(t, z, lanes, left_side);
        assert forall|i: int| 0 <= i < obs.len() implies is_lane_cube(#[trigger] obs[i], z) by {
            assert(-1 <= lanes[i] <= 1);
        }
    }
}

/// Builds the obstacles for the segment at `z_pos` from the drawn values.
pub fn place_obstacles(obstacle_type: ObstacleType, z_pos: i64, lanes: &Vec<i8>, left_side: bool) -> (r: Vec<Obstacle>)
    requires
        valid_draws(obstacle_type, lanes@),
        0 <= z_pos <= MAX_FRONTIER,
    ensures
        r@ == placement(obstacle_type, z_pos as int, lanes@, left_side),
        is_generated(r@, z_pos as int),
        forall|i: int| 0 <= i < r@.len() ==> (#[trigger] r@[i]).wf(),
{
    proof {
        lemma_placement_generated(obstacle_type, z_pos as int, lanes@, left_side);
    }
    let z = z_pos + OBSTACLE_OFFSET;
    let mut obstacles: Vec<Obstacle> = Vec::new();
    match obstacle_type {
        ObstacleType::Cube => {
            let mut i: usize = 0;
            while i < lanes.len()
                invariant
                    i <= lanes@.len(),
                    z == z_pos + OBSTACLE_OFFSET,
                    obstacle_type == ObstacleType::Cube,
                    valid_draws(obstacle_type, lanes@),
                    obstacles@ == lanes@.subrange(0, i as int).map_values(
                        |l: i8| obstacle_at(obstacle_type, l * LANE_WIDTH, FLOOR_LIFT as int, z_pos as int),
                    ),
                decreases lanes@.len() - i,
            {
                let lane = lanes[i];
                obstacles.push(Obstacle {
                    position: Point3::new(lane as i64 * LANE_WIDTH, FLOOR_LIFT, z),
                    obstacle_type: ObstacleType::Cube,
                });
                i = i + 1;
                assert(lanes@.subrange(0, i as int).drop_last() =~= lanes@.subrange(0, i - 1));
                assert(obstacles@ =~= lanes@.subrange(0, i as int).map_values(
                    |l: i8| obstacle_at(obstacle_type, l * LANE_WIDTH, FLOOR_LIFT as int, z_pos as int),
                ));
            }
            assert(lanes@.subrange(0, lanes@.len() as int) =~= lanes@);
        },
        ObstacleType::LowBar => {
            obstacles.push(Obstacle { position: Point3::new(0, FLOOR_LIFT, z), obstacle_type: ObstacleType::LowBar });
        },
        ObstacleType::TallWall => {
            let x: i64 = if left_side { -UNIT } else { UNIT };
            obstacles.push(Obstacle { position: Point3::new(x, FLOOR_LIFT, z), obstacle_type: ObstacleType::TallWall });
        },
        ObstacleType::HighBar => {
            obstacles.push(Obstacle { position: Point3::new(0, HIGH_BAR_LIFT, z), obstacle_type: ObstacleType::HighBar });
        },
    }
    assert(obstacles@ =~= placement(obstacle_type, z_pos as int, lanes@, left_side));
    obstacles
}

/// One slice of track, starting at `position` along the scroll axis.
pub struct LevelSegment {
    pub position: i64,
    pub obstacles: Vec<Obstacle>,
}

impl LevelSegment {
    /// The first segment is left empty; any other holds what the generator
    /// may place on it.
    pub open spec fn wf(self) -> bool {
        &&& 0 <= self.position <= MAX_FRONTIER
        &&& self.position == 0 ==> self.obstacles@.len() == 0
        &&& self.position != 0 ==> is_generated(self.obstacles@, self.position as int)
        &&& forall|i: int| 0 <= i < self.obstacles@.len() ==> (#[trigger] self.obstacles@[i]).wf()
    }
}

/// Streams segments ahead of the player and prunes those left behind.
pub struct LevelGenerator {
    pub segments: Vec<LevelSegment>,
    /// The frontier: where the next segment will start.
    pub next_z: i64,
    pub rng: rand::rngs::StdRng,
}

impl LevelGenerator {
    /// Where the first held segment starts (the frontier if none is held).
    pub open spec fn start(self) -> int {
        self.next_z - self.segments@.len() * SEGMENT_SPACING
    }

    /// Segments lie end to end, in order, up to the frontier.
    pub open spec fn wf(self) -> bool {
        &&& 0 <= self.start()
        &&& self.next_z <= MAX_FRONTIER
        &&& forall|i: int| 0 <= i < self.segments@.len() ==> {
            &&& (#[trigger] self.segments@[i]).position == self.start() + i * SEGMENT_SPACING
            &&& self.segments@[i].wf()
        }
    }

    /// Every point of `[from, to]` lies on a held segment.
    pub open spec fn covers(self, from: int, to: int) -> bool {
        self.start() <= from && to < self.next_z
    }

    fn generate_obstacles(&mut self, z_pos: i64) -> (r: Vec<Obstacle>)
        requires
            0 <= z_pos <= MAX_FRONTIER,
        ensures
            is_generated(r@, z_pos as int),
            forall|i: int| 0 <= i < r@.len() ==> (#[trigger] r@[i]).wf(),
            final(self).segments == old(self).segments,
            final(self).next_z == old(self).next_z,
    {
        let draw = random_range(&mut self.rng, 0, 3);
        let obstacle_type = if draw == 0 {
            ObstacleType::Cube
        } else if draw == 1 {
            ObstacleType::LowBar
        } else if draw == 2 {
            ObstacleType::TallWall
        } else {
            ObstacleType::HighBar
        };
        let mut lanes: Vec<i8> = Vec::new();
        let mut left_side = false;
        match obstacle_type {
            ObstacleType::Cube => {
                let count = random_range(&mut self.rng, 1, 2);
                let mut i: i32 = 0;
                while i < count
                    invariant
                        1 <= count <= 2,
                        0 <= i <= count,
                        lanes@.len() == i,
                        forall|j: int| 0 <= j < lanes@.len() ==> -1 <= #[trigger] lanes@[j] <= 1,
                        self.segments == old(self).segments,
                        self.next_z == old(self).next_z,
                    decreases count - i,
                {
                    let lane = random_range(&mut self.rng, -1, 1);
                    lanes.push(lane as i8);
                    i = i + 1;
                }
            },
            ObstacleType::TallWall => {
                left_side = random_range(&mut self.rng, 0, 1) == 0;
            },
            _ => {},
        }
        place_obstacles(obstacle_type, z_pos, &lanes, left_side)
    }

    /// Appends one segment at the frontier, with obstacles unless it is
    /// the very first, and moves the frontier one segment on.
    pub fn generate_segment(&mut self)
        requires
            old(self).wf(),
            old(self).next_z <= MAX_FRONTIER - SEGMENT_SPACING,
        ensures
            final(self).wf(),
            final(self).next_z == old(self).next_z + SEGMENT_SPACING,
            final(self).segments@.len() == old(self).segments@.len() + 1,
            final(self).segments@.drop_last() == old(self).segments@,
            final(self).segments@.last().position == old(self).next_z,
            final(self).start() == old(self).start(),
    {
        let z = self.next_z;
        let obstacles = if z == 0 {
            Vec::new()
        } else {
            self.generate_obstacles(z)
        };
        self.segments.push(LevelSegment { position: z, obstacles });
        self.next_z = z + SEGMENT_SPACING;
        assert(self.segments@.drop_last() =~= old(self).segments@);
    }
    fn with_rng(rng: rand::rngs::StdRng) -> (r: LevelGenerator)
        ensures
            r.wf(),
            r.start() == 0,
            r.next_z == VISIBLE_SEGMENTS * SEGMENT_SPACING,
            r.segments@.len() == VISIBLE_SEGMENTS,
            r.segments@[0].obstacles@.len() == 0,
    {
        let mut generator = LevelGenerator { segments: Vec::new(), next_z: 0, rng };
        let mut i: usize = 0;
        while i < VISIBLE_SEGMENTS
            invariant
                i <= VISIBLE_SEGMENTS,
                generator.wf(),
                generator.start() == 0,
                generator.segments@.len() == i,
                generator.next_z == i * SEGMENT_SPACING,
            decreases VISIBLE_SEGMENTS - i,
        {
            generator.generate_segment();
            i = i + 1;
        }
        generator
    }

    /// A generator with the opening run of segments laid out from the
    /// origin; the first segment is free of obstacles. Draws are seeded
    /// from the operating system.
    pub fn new() -> (r: LevelGenerator)
        ensures
            r.wf(),
            r.start() == 0,
            r.next_z == VISIBLE_SEGMENTS * SEGMENT_SPACING,
            r.segments@.len() == VISIBLE_SEGMENTS,
            r.segments@[0].obstacles@.len() == 0,
    {
        Self::with_rng(rng_from_entropy())
    }

    /// As `new`, with every draw fixed by `seed`.
    pub fn with_seed(seed: u64) -> (r: LevelGenerator)
        ensures
            r.wf(),
            r.start() == 0,
            r.next_z == VISIBLE_SEGMENTS * SEGMENT_SPACING,
            r.segments@.len() == VISIBLE_SEGMENTS,
            r.segments@[0].obstacles@.len() == 0,
    {
        Self::with_rng(rng_from_seed(seed))
    }

    /// Extends the track until the frontier passes `world_z + LOOKAHEAD`,
    /// then drops the segments at or behind `world_z - TRAILING_MARGIN`.
    pub fn update(&mut self, world_z: i64)
        requires
            old(self).wf(),
            0 <= world_z <= MAX_DISTANCE,
        ensures
            final(self).wf(),
            final(self).next_z > world_z + LOOKAHEAD,
            forall|i: int| 0 <= i < final(self).segments@.len()
                ==> (#[trigger] final(self).segments@[i]).position > world_z - TRAILING_MARGIN,
            old(self).start() <= world_z ==> final(self).covers(world_z as int, world_z + LOOKAHEAD),
            old(self).next_z > world_z + LOOKAHEAD ==> final(self).next_z == old(self).next_z,
            forall|i: int| 0 <= i < old(self).segments@.len()
                && (#[trigger] old(self).segments@[i]).position > world_z - TRAILING_MARGIN
                ==> final(self).segments@.contains(old(self).segments@[i]),
    {
        let ghost started = old(self).start() <= world_z;
        let threshold = world_z + LOOKAHEAD;
        while self.next_z <= threshold
            invariant
                self.wf(),
                threshold == world_z + LOOKAHEAD,
                0 <= world_z <= MAX_DISTANCE,
                started ==> self.start() <= world_z,
                old(self).next_z > threshold ==> self.next_z == old(self).next_z,
                self.segments@.len() >= old(self).segments@.len(),
                forall|i: int| 0 <= i < old(self).segments@.len()
                    ==> #[trigger] self.segments@[i] == old(self).segments@[i],
            decreases threshold + SEGMENT_SPACING - self.next_z,
        {
            let ghost before = self.segments@;
            self.generate_segment();
            assert forall|i: int| 0 <= i < old(self).segments@.len()
                implies #[trigger] self.segments@[i] == old(self).segments@[i] by {
                assert(self.segments@.drop_last()[i] == before[i]);
            }
        }
        let remove_threshold = world_z - TRAILING_MARGIN;
        let ghost kept = self.segments@;
        let ghost removed: int = 0;
        while self.segments.len() > 0 && self.segments[0].position <= remove_threshold
            invariant
                self.wf(),
                self.next_z > threshold,
                threshold == world_z + LOOKAHEAD,
                remove_threshold == world_z - TRAILING_MARGIN,
                0 <= world_z <= MAX_DISTANCE,
                started ==> self.start() <= world_z,
                old(self).next_z > threshold ==> self.next_z == old(self).next_z,
                0 <= removed <= kept.len(),
                self.segments@ == kept.subrange(removed, kept.len() as int),
                forall|i: int| 0 <= i < removed ==> (#[trigger] kept[i]).position <= remove_threshold,
            decreases self.segments@.len(),
        {
            self.segments.remove(0);
            proof {
                removed = removed + 1;
                assert(self.segments@ =~= kept.subrange(removed, kept.len() as int));
            }
        }
        proof {
            assert forall|i: int| 0 <= i < self.segments@.len()
                implies (#[trigger] self.segments@[i]).position > remove_threshold by {
                assert(self.segments@[0].position > remove_threshold);
            }
            assert forall|i: int| 0 <= i < old(self).segments@.len()
                && (#[trigger] old(self).segments@[i]).position > remove_threshold
                implies self.segments@.contains(old(self).segments@[i]) by {
                if i < removed {
                    assert(kept[i].position <= remove_threshold);
                }
                assert(self.segments@[i - removed] == kept[i]);
            }
        }
    }

    /// The held segments, in order along the track.
    pub fn segments(&self) -> (r: &Vec<LevelSegment>)
        ensures
            r@ == self.segments@,
    {
        &self.segments
    }
}

/// No gap: every covered point lies on exactly the held segment whose
/// span `[position, position + SEGMENT_SPACING)` contains it.
pub proof fn lemma_covered_point(g: LevelGenerator, q: int)
    requires
        g.wf(),
        g.start() <= q < g.next_z,
    ensures
        exists|i: int| 0 <= i < g.segments@.len()
            && (#[trigger] g.segments@[i]).position <= q < g.segments@[i].position + SEGMENT_SPACING,
{
    let i = (q - g.start()) / SEGMENT_SPACING as int;
    let len = g.segments@.len() as int;
    assert(g.next_z == g.start() + len * SEGMENT_SPACING);
    assert(0 <= i < len) by (nonlinear_arith)
        requires
            i == (q - g.start()) / SEGMENT_SPACING as int,
            0 <= q - g.start() < len * SEGMENT_SPACING;
    assert(i * SEGMENT_SPACING <= q - g.start() < i * SEGMENT_SPACING + SEGMENT_SPACING) by (nonlinear_arith)
        requires i == (q - g.start()) / SEGMENT_SPACING as int, 0 <= q - g.start();
    assert(g.segments@[i].position == g.start() + i * SEGMENT_SPACING);
}

} // verus!
