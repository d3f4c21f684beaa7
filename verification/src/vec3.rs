//! Exact 3-component vectors over rational scalars.

use crate::rat::Rat;
use vstd::prelude::*;

verus! {

/// A world-space vector with exact rational components.
#[derive(Clone, Copy, PartialEq, Eq, Structural, Debug)]
pub struct Vec3R {
    pub x: Rat,
    pub y: Rat,
    pub z: Rat,
}

impl Vec3R {
    pub open spec fn wf(self) -> bool {
        self.x.wf() && self.y.wf() && self.z.wf()
    }

    /// Every component bounded, so one update cycle's arithmetic stays in
    /// range.
    pub open spec fn bounded(self) -> bool {
        self.x.bounded() && self.y.bounded() && self.z.bounded()
    }

    /// The vector denotes exactly the integer point (x, y, z).
    pub open spec fn is_ints(self, x: int, y: int, z: int) -> bool {
        self.x@.is_int(x) && self.y@.is_int(y) && self.z@.is_int(z)
    }

    /// A unit-cube face offset: each component is an integer in {-1, 0, 1}
    /// stored with denominator one.
    pub open spec fn is_unit_offset(self) -> bool {
        &&& self.x.den == 1
        &&& self.y.den == 1
        &&& self.z.den == 1
        &&& -1 <= self.x.num <= 1
        &&& -1 <= self.y.num <= 1
        &&& -1 <= self.z.num <= 1
    }
}

/// Build a vector of three integer-valued components.
pub fn vec3_ints(x: i64, y: i64, z: i64) -> (v: Vec3R)
    ensures
        v.wf(),
        v.is_ints(x as int, y as int, z as int),
        v.x.num == x && v.x.den == 1,
        v.y.num == y && v.y.den == 1,
        v.z.num == z && v.z.den == 1,
{
    Vec3R {
        x: Rat { num: x, den: 1 },
        y: Rat { num: y, den: 1 },
        z: Rat { num: z, den: 1 },
    }
}

/// Executable test for `Vec3R::wf`.
pub fn vec3_is_wf(v: &Vec3R) -> (b: bool)
    ensures
        b == v.wf(),
{
    let wx = crate::rat::rat_is_wf(&v.x);
    let wy = crate::rat::rat_is_wf(&v.y);
    let wz = crate::rat::rat_is_wf(&v.z);
    wx && wy && wz
}

/// Executable test for `Vec3R::bounded`.
pub fn vec3_is_bounded(v: &Vec3R) -> (b: bool)
    ensures
        b == v.bounded(),
{
    let bx = crate::rat::rat_is_bounded(&v.x);
    let by = crate::rat::rat_is_bounded(&v.y);
    let bz = crate::rat::rat_is_bounded(&v.z);
    bx && by && bz
}

} // verus!
