//! Points and axis-aligned boxes in fixed-point world coordinates.
//!
//! Lengths are held in nanometres of world space (`UNIT` per metre), so
//! every position is an exact integer and overlap tests never round.
use vstd::prelude::*;

verus! {

/// One world unit (a metre) in the fixed-point length scale.
pub const UNIT: i64 = 1_000_000_000;

/// Farthest distance along the track that positions may reach.
pub const MAX_DISTANCE: i64 = 4_000_000_000_000_000_000;

/// A point in world space; each coordinate is in `1 / UNIT` metres.
#[derive(Clone, Copy, Debug, PartialEq, Eq, Structural)]
pub struct Point3 {
    pub x: i64,
    pub y: i64,
    pub z: i64,
}

impl Point3 {
    /// The point `(x, y, z)`.
    pub fn new(x: i64, y: i64, z: i64) -> (r: Point3)
        ensures
            r == (Point3 { x, y, z }),
    {
        Point3 { x, y, z }
    }
}

/// An axis-aligned bounding box given by its two extreme corners.
#[allow(non_camel_case_types)]
#[derive(Clone, Copy, Debug, PartialEq, Eq, Structural)]
pub struct AABB {
    pub min: Point3,
    pub max: Point3,
}

/// The closed intervals `[a_lo, a_hi]` and `[b_lo, b_hi]` share a point.
pub open spec fn intervals_overlap(a_lo: int, a_hi: int, b_lo: int, b_hi: int) -> bool {
    a_lo <= b_hi && a_hi >= b_lo
}

impl AABB {
    /// `min` is below or equal to `max` on every axis.
    pub open spec fn wf(self) -> bool {
        &&& self.min.x <= self.max.x
        &&& self.min.y <= self.max.y
        &&& self.min.z <= self.max.z
    }

    /// Inclusive overlap on all three axes.
    pub open spec fn overlaps(self, other: AABB) -> bool {
        &&& intervals_overlap(self.min.x as int, self.max.x as int, other.min.x as int, other.max.x as int)
        &&& intervals_overlap(self.min.y as int, self.max.y as int, other.min.y as int, other.max.y as int)
        &&& intervals_overlap(self.min.z as int, self.max.z as int, other.min.z as int, other.max.z as int)
    }

    /// True iff the two boxes overlap, bounds included.
    pub fn collides(&self, other: &AABB) -> (r: bool)
        ensures
            r == self.overlaps(*other),
    {
        self.min.x <= other.max.x && self.max.x >= other.min.x && self.min.y <= other.max.y
            && self.max.y >= other.min.y && self.min.z <= other.max.z && self.max.z >= other.min.z
    }
}

/// Overlap does not depend on the order of the two boxes.
pub proof fn lemma_collides_symmetric(a: AABB, b: AABB)
    ensures
        a.overlaps(b) == b.overlaps(a),
{
}

/// Boxes whose x-ranges are disjoint never overlap, whatever their y and z.
pub proof fn lemma_disjoint_x_never_collide(a: AABB, b: AABB)
    requires
        a.max.x < b.min.x || b.max.x < a.min.x,
    ensures
        !a.overlaps(b),
        !b.overlaps(a),
{
}

} // verus!
