//! The player's kinematic state: lanes, jumps, squats and gravity.
//!
//! Time is counted in milliseconds, vertical speed in micrometres per
//! second and lengths in `1 / UNIT` metres, so that one step of the
//! integrator is exact: a speed times a duration is a length.
use vstd::prelude::*;
use crate::geometry::{AABB, Point3, UNIT, MAX_DISTANCE};

verus! {

/// Lateral distance between the centres of two neighbouring lanes.
pub const LANE_WIDTH: i64 = 2_000_000_000;

/// Upward speed given by a jump (8 m/s).
pub const JUMP_FORCE: i64 = 8_000_000;

/// Loss of vertical speed per millisecond under normal gravity (16 m/s^2).
pub const BASE_GRAVITY: i64 = 16_000;

/// Loss of vertical speed per millisecond while fast-falling (100 m/s^2).
pub const FAST_FALL_GRAVITY: i64 = 100_000;

/// Standing height of the character.
pub const NORMAL_HEIGHT: i64 = 1_000_000_000;

/// Height of the character while squatting.
pub const SQUAT_HEIGHT: i64 = 500_000_000;

/// Half of the character's width and depth.
pub const HALF_WIDTH: i64 = 500_000_000;

/// Highest point a jump can reach: `JUMP_FORCE^2 / (2 * BASE_GRAVITY)`.
pub const MAX_JUMP_HEIGHT: i64 = 2_000_000_000;

/// Scale of the smoothing factors below (a factor of one).
pub const DECAY_SCALE: u64 = 1_000_000_000;

/// What is left of a gap after one millisecond of smoothing:
/// `exp(-0.005)`, the lane-change rate of 5 per second, in `DECAY_SCALE`.
pub const DECAY_PER_MS: u64 = 995_012_479;

/// The share of a gap left after `ms` milliseconds of smoothing.
pub open spec fn decay(ms: nat) -> int
    decreases ms,
{
    if ms == 0 {
        DECAY_SCALE as int
    } else {
        decay((ms - 1) as nat) * DECAY_PER_MS / DECAY_SCALE as int
    }
}

/// The smoothing factor stays between zero and one.
pub proof fn lemma_decay_bounds(ms: nat)
    ensures
        0 <= decay(ms) <= DECAY_SCALE,
    decreases ms,
{
    if ms > 0 {
        lemma_decay_bounds((ms - 1) as nat);
        let d = decay((ms - 1) as nat);
        assert(d * DECAY_PER_MS <= d * DECAY_SCALE) by (nonlinear_arith)
            requires 0 <= d;
        assert(d * DECAY_PER_MS >= 0) by (nonlinear_arith)
            requires 0 <= d;
        assert(d * DECAY_SCALE / DECAY_SCALE as int == d) by (nonlinear_arith);
        assert(d * DECAY_PER_MS / DECAY_SCALE as int <= d * DECAY_SCALE / DECAY_SCALE as int)
            by (nonlinear_arith)
            requires d * DECAY_PER_MS <= d * DECAY_SCALE;
    }
}

/// Once nothing of the gap is left, nothing is left later either.
pub proof fn lemma_decay_zero_stays(n: nat, m: nat)
    requires
        n <= m,
        decay(n) == 0,
    ensures
        decay(m) == 0,
    decreases m - n,
{
    if n < m {
        lemma_decay_zero_stays((n + 1) as nat, m);
    }
}

/// The smoothing factor for a step of `ms` milliseconds.
pub fn decay_factor(ms: u32) -> (r: u64)
    ensures
        r == decay(ms as nat),
        r <= DECAY_SCALE,
{
    let mut d: u64 = DECAY_SCALE;
    let mut i: u32 = 0;
    while i < ms && d > 0
        invariant
            i <= ms,
            d == decay(i as nat),
        decreases ms - i,
    {
        proof {
            lemma_decay_bounds(i as nat);
        }
        assert((d as u128) * (DECAY_PER_MS as u128) <= DECAY_SCALE * DECAY_SCALE) by (nonlinear_arith)
            requires d <= DECAY_SCALE, DECAY_PER_MS <= DECAY_SCALE;
        d = ((d as u128) * (DECAY_PER_MS as u128) / (DECAY_SCALE as u128)) as u64;
        i = i + 1;
    }
    proof {
        if i < ms {
            lemma_decay_zero_stays(i as nat, ms as nat);
        }
        lemma_decay_bounds(ms as nat);
    }
    d
}

/// Moves `x` towards `target`, keeping `keep / DECAY_SCALE` of the gap.
pub open spec fn approach(x: int, target: int, keep: int) -> int {
    if x >= target {
        target + (x - target) * keep / DECAY_SCALE as int
    } else {
        target - (target - x) * keep / DECAY_SCALE as int
    }
}

/// Smoothing lands between the start and the target.
pub proof fn lemma_approach_between(x: int, target: int, keep: int)
    requires
        0 <= keep <= DECAY_SCALE,
    ensures
        x >= target ==> target <= approach(x, target, keep) <= x,
        x < target ==> x <= approach(x, target, keep) <= target,
{
    let g = if x >= target { x - target } else { target - x };
    assert(0 <= g * keep) by (nonlinear_arith)
        requires 0 <= g, 0 <= keep;
    assert(g * keep <= g * DECAY_SCALE) by (nonlinear_arith)
        requires 0 <= g, keep <= DECAY_SCALE;
    assert(g * DECAY_SCALE / DECAY_SCALE as int == g) by (nonlinear_arith);
    assert(g * keep / DECAY_SCALE as int <= g * DECAY_SCALE / DECAY_SCALE as int)
        by (nonlinear_arith)
        requires g * keep <= g * DECAY_SCALE;
    assert(0 <= g * keep / DECAY_SCALE as int) by (nonlinear_arith)
        requires 0 <= g * keep;
}

/// Exponential smoothing of `x` towards `target` (no overshoot).
fn smooth(x: i64, target: i64, keep: u64) -> (r: i64)
    requires
        keep <= DECAY_SCALE,
    ensures
        r == approach(x as int, target as int, keep as int),
        x >= target ==> target <= r <= x,
        x < target ==> x <= r <= target,
{
    proof {
        lemma_approach_between(x as int, target as int, keep as int);
    }
    if x >= target {
        let gap: u128 = (x as i128 - target as i128) as u128;
        assert(gap * keep as u128 <= gap * DECAY_SCALE) by (nonlinear_arith)
            requires keep <= DECAY_SCALE;
        assert(gap * DECAY_SCALE <= 0x1_0000_0000_0000_0000 * DECAY_SCALE) by (nonlinear_arith)
            requires gap <= 0x1_0000_0000_0000_0000;
        let part: u128 = gap * (keep as u128) / (DECAY_SCALE as u128);
        (target as i128 + part as i128) as i64
    } else {
        let gap: u128 = (target as i128 - x as i128) as u128;
        assert(gap * keep as u128 <= gap * DECAY_SCALE) by (nonlinear_arith)
            requires keep <= DECAY_SCALE;
        assert(gap * DECAY_SCALE <= 0x1_0000_0000_0000_0000 * DECAY_SCALE) by (nonlinear_arith)
            requires gap <= 0x1_0000_0000_0000_0000;
        let part: u128 = gap * (keep as u128) / (DECAY_SCALE as u128);
        (target as i128 - part as i128) as i64
    }
}

/// The positive part of `v`, squared: the kinetic share of a rise.
pub open spec fn rise_energy(v: int) -> int {
    if v > 0 {
        v * v
    } else {
        0
    }
}

/// One step of the integrator keeps a rising character under the jump's
/// height and keeps its speed within the invariant's bounds.
pub proof fn lemma_step_energy(y: int, v: int, g: int, ms: int)
    requires
        0 <= y,
        BASE_GRAVITY <= g,
        0 <= ms,
        2 * BASE_GRAVITY * y + rise_energy(v) <= JUMP_FORCE * JUMP_FORCE,
        y + (v - g * ms) * ms > 0,
    ensures
        2 * BASE_GRAVITY * (y + (v - g * ms) * ms) + rise_energy(v - g * ms)
            <= JUMP_FORCE * JUMP_FORCE,
        ms > 0 ==> v - g * ms > -y,
{
    let w = v - g * ms;
    let a = BASE_GRAVITY as int;
    assert(g * ms >= a * ms) by (nonlinear_arith)
        requires g >= a, ms >= 0;
    if w > 0 {
        assert(v >= w + a * ms);
        assert(v * v >= (w + a * ms) * (w + a * ms)) by (nonlinear_arith)
            requires v >= w + a * ms, w + a * ms >= 0;
        assert((w + a * ms) * (w + a * ms) >= w * w + 2 * a * (w * ms)) by (nonlinear_arith)
            requires w > 0, a > 0, ms >= 0;
        assert(2 * a * (y + w * ms) == 2 * a * y + 2 * a * (w * ms)) by (nonlinear_arith);
        assert(rise_energy(v) == v * v);
        assert(rise_energy(w) == w * w);
        assert(2 * a * (y + w * ms) + rise_energy(w) <= 2 * a * y + rise_energy(v));
    } else {
        assert(w * ms <= 0) by (nonlinear_arith)
            requires w <= 0, ms >= 0;
        assert(rise_energy(v) >= 0) by (nonlinear_arith);
        assert(rise_energy(w) == 0);
        assert(2 * a * (y + w * ms) <= 2 * a * y) by (nonlinear_arith)
            requires w * ms <= 0, a > 0;
    }
    assert((v - g * ms) * ms == w * ms);
    if ms > 0 && w < 0 {
        assert(w * ms <= w) by (nonlinear_arith)
            requires w < 0, ms >= 1;
    }
}

/// The energy bound keeps the character below the top of a jump.
pub proof fn lemma_height_bound(y: int, v: int)
    requires
        2 * BASE_GRAVITY * y + rise_energy(v) <= JUMP_FORCE * JUMP_FORCE,
    ensures
        y <= MAX_JUMP_HEIGHT,
{
    assert(rise_energy(v) >= 0) by (nonlinear_arith);
    assert(JUMP_FORCE * JUMP_FORCE == 2 * BASE_GRAVITY * MAX_JUMP_HEIGHT);
    let b = BASE_GRAVITY as int;
    let m = MAX_JUMP_HEIGHT as int;
    assert(y <= m) by (nonlinear_arith)
        requires 2 * b * y <= 2 * b * m, b > 0;
}

/// The player's kinematic state.
///
/// `position.x` is the lateral offset, `position.y` the height above the
/// floor; `position.z` stays zero (the world scrolls past the player).
pub struct Character {
    pub position: Point3,
    /// Vertical speed, in micrometres per second (positive is upwards).
    pub velocity_y: i64,
    pub is_grounded: bool,
    pub is_pressing_down: bool,
    pub lane: i8,
    pub target_x: i64,
    pub target_height: i64,
    pub current_height: i64,
}

impl Character {
    /// The invariant kept by every operation.
    pub open spec fn wf(self) -> bool {
        &&& -1 <= self.lane <= 1
        &&& self.target_x == self.lane * LANE_WIDTH
        &&& -LANE_WIDTH <= self.position.x <= LANE_WIDTH
        &&& self.position.y >= 0
        &&& self.position.z == 0
        &&& self.is_grounded ==> self.position.y == 0 && self.velocity_y == 0
        &&& -MAX_JUMP_HEIGHT <= self.velocity_y <= JUMP_FORCE
        &&& 2 * BASE_GRAVITY * self.position.y + rise_energy(self.velocity_y as int)
            <= JUMP_FORCE * JUMP_FORCE
        &&& self.target_height == NORMAL_HEIGHT || self.target_height == SQUAT_HEIGHT
        &&& SQUAT_HEIGHT <= self.current_height <= NORMAL_HEIGHT
    }

    /// The height the character heads for, from the state before a step.
    pub open spec fn height_goal(self) -> i64 {
        if self.is_grounded && self.is_pressing_down {
            SQUAT_HEIGHT
        } else {
            NORMAL_HEIGHT
        }
    }

    /// The gravity that applies during a step.
    pub open spec fn gravity(self) -> i64 {
        if self.is_pressing_down && !self.is_grounded {
            FAST_FALL_GRAVITY
        } else {
            BASE_GRAVITY
        }
    }

    /// The state after a step of `ms` milliseconds.
    pub open spec fn stepped(self, ms: nat) -> Character {
        let keep = decay(ms);
        let v = self.velocity_y - self.gravity() * ms;
        let y = self.position.y + v * ms;
        let x = approach(self.position.x as int, self.target_x as int, keep);
        let h = approach(self.current_height as int, self.height_goal() as int, keep);
        Character {
            position: Point3 {
                x: x as i64,
                y: if y <= 0 { 0 } else { y as i64 },
                z: self.position.z,
            },
            velocity_y: if y <= 0 { 0 } else { v as i64 },
            is_grounded: y <= 0,
            is_pressing_down: self.is_pressing_down,
            lane: self.lane,
            target_x: self.target_x,
            target_height: self.height_goal(),
            current_height: h as i64,
        }
    }

    /// The character's box at track position `z`: centred on it in x and
    /// z, standing on its feet, as tall as its current height.
    pub open spec fn aabb_at(self, z: int) -> AABB {
        AABB {
            min: Point3 {
                x: (self.position.x - HALF_WIDTH) as i64,
                y: self.position.y,
                z: (z - HALF_WIDTH) as i64,
            },
            max: Point3 {
                x: (self.position.x + HALF_WIDTH) as i64,
                y: (self.position.y + self.current_height) as i64,
                z: (z + HALF_WIDTH) as i64,
            },
        }
    }

    /// After a jump input: airborne at the jump speed if it stood on the
    /// floor, unchanged otherwise.
    pub open spec fn jumped(self) -> Character {
        if self.is_grounded {
            Character {
                velocity_y: JUMP_FORCE,
                is_grounded: false,
                target_height: NORMAL_HEIGHT,
                ..self
            }
        } else {
            self
        }
    }

    /// One lane towards negative x, unless already in the last lane.
    pub open spec fn moved_right(self) -> Character {
        if self.lane > -1 {
            Character {
                lane: (self.lane - 1) as i8,
                target_x: ((self.lane - 1) * LANE_WIDTH) as i64,
                ..self
            }
        } else {
            self
        }
    }

    /// One lane towards positive x, unless already in the last lane.
    pub open spec fn moved_left(self) -> Character {
        if self.lane < 1 {
            Character {
                lane: (self.lane + 1) as i8,
                target_x: ((self.lane + 1) * LANE_WIDTH) as i64,
                ..self
            }
        } else {
            self
        }
    }

    /// With the squat / fast-fall input held (`state`) or released.
    pub open spec fn pressing_down(self, state: bool) -> Character {
        Character { is_pressing_down: state, ..self }
    }

    /// A character standing still in the middle lane.
    pub open spec fn new_spec() -> Character {
        Character {
            position: Point3 { x: 0, y: 0, z: 0 },
            velocity_y: 0,
            is_grounded: true,
            is_pressing_down: false,
            lane: 0,
            target_x: 0,
            target_height: NORMAL_HEIGHT,
            current_height: NORMAL_HEIGHT,
        }
    }

    /// A character standing still in the middle lane.
    pub fn new() -> (r: Character)
        ensures
            r.wf(),
            r == Character::new_spec(),
    {
        Character {
            position: Point3::new(0, 0, 0),
            velocity_y: 0,
            is_grounded: true,
            is_pressing_down: false,
            lane: 0,
            target_x: 0,
            target_height: NORMAL_HEIGHT,
            current_height: NORMAL_HEIGHT,
        }
    }
    /// Advances the character by `delta_ms` milliseconds: lateral and
    /// height smoothing, gravity, then landing on the floor.
    pub fn update(&mut self, delta_ms: u32)
        requires
            old(self).wf(),
        ensures
            final(self).wf(),
            *final(self) == old(self).stepped(delta_ms as nat),
            final(self).position.y >= 0,
    {
        let keep = decay_factor(delta_ms);
        self.position.x = smooth(self.position.x, self.target_x, keep);
        self.target_height = if self.is_grounded && self.is_pressing_down {
            SQUAT_HEIGHT
        } else {
            NORMAL_HEIGHT
        };
        self.current_height = smooth(self.current_height, self.target_height, keep);
        let gravity: i64 = if self.is_pressing_down && !self.is_grounded {
            FAST_FALL_GRAVITY
        } else {
            BASE_GRAVITY
        };
        let ms = delta_ms as i64;
        assert(gravity * ms <= FAST_FALL_GRAVITY * 0x1_0000_0000) by (nonlinear_arith)
            requires gravity <= FAST_FALL_GRAVITY, 0 <= ms < 0x1_0000_0000, gravity >= 0;
        assert(gravity * ms >= 0) by (nonlinear_arith)
            requires gravity >= 0, ms >= 0;
        let v: i64 = self.velocity_y - gravity * ms;
        assert(-0x4_0000_0000_0000 <= v <= 0x4_0000_0000_0000);
        assert(-0x4_0000_0000_0000_0000_0000 <= (v as int) * (ms as int)) by (nonlinear_arith)
            requires -0x4_0000_0000_0000 <= v, 0 <= ms < 0x1_0000_0000;
        assert((v as int) * (ms as int) <= 0x4_0000_0000_0000_0000_0000) by (nonlinear_arith)
            requires v <= 0x4_0000_0000_0000, 0 <= ms < 0x1_0000_0000;
        let y: i128 = self.position.y as i128 + (v as i128) * (ms as i128);
        if y <= 0 {
            self.position.y = 0;
            self.velocity_y = 0;
            self.is_grounded = true;
        } else {
            proof {
                lemma_step_energy(
                    old(self).position.y as int,
                    old(self).velocity_y as int,
                    gravity as int,
                    ms as int,
                );
                assert(y <= MAX_JUMP_HEIGHT) by (nonlinear_arith)
                    requires
                        2 * BASE_GRAVITY * y + rise_energy(v as int) <= JUMP_FORCE * JUMP_FORCE,
                        rise_energy(v as int) >= 0;
                lemma_height_bound(old(self).position.y as int, old(self).velocity_y as int);
                if ms == 0 {
                    assert(gravity * ms == 0) by (nonlinear_arith)
                        requires ms == 0;
                }
            }
            self.position.y = y as i64;
            self.velocity_y = v;
            self.is_grounded = false;
        }
    }

    /// Box around the character at the track position `player_z`; its
    /// height follows the squat smoothly.
    pub fn get_aabb(&self, player_z: i64) -> (r: AABB)
        requires
            self.wf(),
            -MAX_DISTANCE <= player_z <= MAX_DISTANCE,
        ensures
            r.wf(),
            r == self.aabb_at(player_z as int),
    {
        proof {
            lemma_height_bound(self.position.y as int, self.velocity_y as int);
        }
        AABB {
            min: Point3::new(self.position.x - HALF_WIDTH, self.position.y, player_z - HALF_WIDTH),
            max: Point3::new(
                self.position.x + HALF_WIDTH,
                self.position.y + self.current_height,
                player_z + HALF_WIDTH,
            ),
        }
    }

    /// Holds or releases the squat / fast-fall input.
    pub fn move_down(&mut self, state: bool)
        requires
            old(self).wf(),
        ensures
            final(self).wf(),
            *final(self) == old(self).pressing_down(state),
    {
        self.is_pressing_down = state;
    }

    /// Starts a jump if the character stands on the floor; does nothing
    /// in the air.
    pub fn jump(&mut self)
        requires
            old(self).wf(),
        ensures
            final(self).wf(),
            *final(self) == old(self).jumped(),
            old(self).is_grounded ==> final(self).velocity_y == JUMP_FORCE && !final(self).is_grounded,
            !old(self).is_grounded ==> *final(self) == *old(self),
    {
        if self.is_grounded {
            self.velocity_y = JUMP_FORCE;
            self.is_grounded = false;
            self.target_height = NORMAL_HEIGHT;
        }
    }

    /// Shifts one lane towards negative x, unless already in the last one.
    pub fn move_right(&mut self)
        requires
            old(self).wf(),
        ensures
            final(self).wf(),
            *final(self) == old(self).moved_right(),
    {
        if self.lane > -1 {
            self.lane = self.lane - 1;
            self.target_x = self.lane as i64 * LANE_WIDTH;
        }
    }

    /// Shifts one lane towards positive x, unless already in the last one.
    pub fn move_left(&mut self)
        requires
            old(self).wf(),
        ensures
            final(self).wf(),
            *final(self) == old(self).moved_left(),
    {
        if self.lane < 1 {
            self.lane = self.lane + 1;
            self.target_x = self.lane as i64 * LANE_WIDTH;
        }
    }
}

/// The character after a sequence of lane changes (`true` for
/// `move_left`, `false` for `move_right`).
pub open spec fn after_moves(c: Character, moves: Seq<bool>) -> Character
    decreases moves.len(),
{
    if moves.len() == 0 {
        c
    } else {
        let d = after_moves(c, moves.drop_last());
        if moves.last() {
            d.moved_left()
        } else {
            d.moved_right()
        }
    }
}

/// Whatever lane changes are made, the lane stays in `{-1, 0, 1}` and the
/// lateral target is the lane's centre.
pub proof fn lemma_moves_keep_lane(c: Character, moves: Seq<bool>)
    requires
        c.wf(),
    ensures
        after_moves(c, moves).wf(),
        -1 <= after_moves(c, moves).lane <= 1,
        after_moves(c, moves).target_x == after_moves(c, moves).lane * LANE_WIDTH,
    decreases moves.len(),
{
    if moves.len() > 0 {
        lemma_moves_keep_lane(c, moves.drop_last());
    }
}

} // verus!
