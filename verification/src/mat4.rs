//! Exact 4x4 matrices over rational scalars.
//!
//! The camera-matrix state holds two such matrices: the camera's world
//! transform (the inverse view matrix) and the inverse of its clip-from-view
//! projection. Matrix multiplication is stated entrywise over the exact
//! rational arithmetic of `crate::rat`, so "this matrix inverts that one" is
//! an exact statement.

use crate::rat::{radd, rmul, rone, rzero, Rat, Ratg};
use crate::rot3::Rot3;
use crate::vec3::Vec3R;
use vstd::prelude::*;

verus! {

/// A 4x4 matrix of exact rationals, row major: `m<row><column>`.
#[derive(Clone, Copy, PartialEq, Eq, Structural, Debug)]
pub struct Mat4R {
    pub m00: Rat,
    pub m01: Rat,
    pub m02: Rat,
    pub m03: Rat,
    pub m10: Rat,
    pub m11: Rat,
    pub m12: Rat,
    pub m13: Rat,
    pub m20: Rat,
    pub m21: Rat,
    pub m22: Rat,
    pub m23: Rat,
    pub m30: Rat,
    pub m31: Rat,
    pub m32: Rat,
    pub m33: Rat,
}

/// The value of the entry in row `i`, column `j`.
pub open spec fn ent(m: Mat4R, i: int, j: int) -> Ratg {
    if i == 0 {
        if j == 0 {
            m.m00@
        } else if j == 1 {
            m.m01@
        } else if j == 2 {
            m.m02@
        } else {
            m.m03@
        }
    } else if i == 1 {
        if j == 0 {
            m.m10@
        } else if j == 1 {
            m.m11@
        } else if j == 2 {
            m.m12@
        } else {
            m.m13@
        }
    } else if i == 2 {
        if j == 0 {
            m.m20@
        } else if j == 1 {
            m.m21@
        } else if j == 2 {
            m.m22@
        } else {
            m.m23@
        }
    } else {
        if j == 0 {
            m.m30@
        } else if j == 1 {
            m.m31@
        } else if j == 2 {
            m.m32@
        } else {
            m.m33@
        }
    }
}

/// Entry (i, j) of the matrix product `a * b`.
pub open spec fn mul_ent(a: Mat4R, b: Mat4R, i: int, j: int) -> Ratg {
    radd(
        radd(radd(rmul(ent(a, i, 0), ent(b, 0, j)), rmul(ent(a, i, 1), ent(b, 1, j))), rmul(ent(a, i, 2), ent(b, 2, j))),
        rmul(ent(a, i, 3), ent(b, 3, j)),
    )
}

/// Entry (i, j) of the identity matrix.
pub open spec fn ident_ent(i: int, j: int) -> Ratg {
    if i == j {
        rone()
    } else {
        rzero()
    }
}

/// Every entry of the product `inv * m` equals, as a rational value, the
/// matching entry of the identity matrix: `inv` is a left inverse of `m`.
pub open spec fn is_inverse_of(inv: Mat4R, m: Mat4R) -> bool {
    &&& mul_ent(inv, m, 0, 0).eq_val(ident_ent(0, 0))
    &&& mul_ent(inv, m, 0, 1).eq_val(ident_ent(0, 1))
    &&& mul_ent(inv, m, 0, 2).eq_val(ident_ent(0, 2))
    &&& mul_ent(inv, m, 0, 3).eq_val(ident_ent(0, 3))
    &&& mul_ent(inv, m, 1, 0).eq_val(ident_ent(1, 0))
    &&& mul_ent(inv, m, 1, 1).eq_val(ident_ent(1, 1))
    &&& mul_ent(inv, m, 1, 2).eq_val(ident_ent(1, 2))
    &&& mul_ent(inv, m, 1, 3).eq_val(ident_ent(1, 3))
    &&& mul_ent(inv, m, 2, 0).eq_val(ident_ent(2, 0))
    &&& mul_ent(inv, m, 2, 1).eq_val(ident_ent(2, 1))
    &&& mul_ent(inv, m, 2, 2).eq_val(ident_ent(2, 2))
    &&& mul_ent(inv, m, 2, 3).eq_val(ident_ent(2, 3))
    &&& mul_ent(inv, m, 3, 0).eq_val(ident_ent(3, 0))
    &&& mul_ent(inv, m, 3, 1).eq_val(ident_ent(3, 1))
    &&& mul_ent(inv, m, 3, 2).eq_val(ident_ent(3, 2))
    &&& mul_ent(inv, m, 3, 3).eq_val(ident_ent(3, 3))
}

impl Mat4R {
    /// Every entry has a strictly positive denominator.
    pub open spec fn wf(self) -> bool {
        &&& self.m00.wf() && self.m01.wf() && self.m02.wf() && self.m03.wf()
        &&& self.m10.wf() && self.m11.wf() && self.m12.wf() && self.m13.wf()
        &&& self.m20.wf() && self.m21.wf() && self.m22.wf() && self.m23.wf()
        &&& self.m30.wf() && self.m31.wf() && self.m32.wf() && self.m33.wf()
    }
}

/// The identity matrix.
pub open spec fn mat4_identity() -> Mat4R {
    Mat4R {
        m00: Rat { num: 1, den: 1 },
        m01: Rat { num: 0, den: 1 },
        m02: Rat { num: 0, den: 1 },
        m03: Rat { num: 0, den: 1 },
        m10: Rat { num: 0, den: 1 },
        m11: Rat { num: 1, den: 1 },
        m12: Rat { num: 0, den: 1 },
        m13: Rat { num: 0, den: 1 },
        m20: Rat { num: 0, den: 1 },
        m21: Rat { num: 0, den: 1 },
        m22: Rat { num: 1, den: 1 },
        m23: Rat { num: 0, den: 1 },
        m30: Rat { num: 0, den: 1 },
        m31: Rat { num: 0, den: 1 },
        m32: Rat { num: 0, den: 1 },
        m33: Rat { num: 1, den: 1 },
    }
}

/// Build the identity matrix.
pub fn mat4_identity_exec() -> (m: Mat4R)
    ensures
        m == mat4_identity(),
        m.wf(),
{
    let one = Rat { num: 1, den: 1 };
    let zero = Rat { num: 0, den: 1 };
    Mat4R {
        m00: one,
        m01: zero,
        m02: zero,
        m03: zero,
        m10: zero,
        m11: one,
        m12: zero,
        m13: zero,
        m20: zero,
        m21: zero,
        m22: one,
        m23: zero,
        m30: zero,
        m31: zero,
        m32: zero,
        m33: one,
    }
}

/// The homogeneous world-transform matrix of a pose: rotation in the upper
/// 3x3 block, translation in the last column, and (0, 0, 0, 1) in the last
/// row. This is the matrix the camera-matrix sync publishes as the inverse
/// view matrix.
pub open spec fn world_matrix(rot: Rot3, t: Vec3R) -> Mat4R {
    Mat4R {
        m00: Rat { num: rot.m00, den: 1 },
        m01: Rat { num: rot.m01, den: 1 },
        m02: Rat { num: rot.m02, den: 1 },
        m03: t.x,
        m10: Rat { num: rot.m10, den: 1 },
        m11: Rat { num: rot.m11, den: 1 },
        m12: Rat { num: rot.m12, den: 1 },
        m13: t.y,
        m20: Rat { num: rot.m20, den: 1 },
        m21: Rat { num: rot.m21, den: 1 },
        m22: Rat { num: rot.m22, den: 1 },
        m23: t.z,
        m30: Rat { num: 0, den: 1 },
        m31: Rat { num: 0, den: 1 },
        m32: Rat { num: 0, den: 1 },
        m33: Rat { num: 1, den: 1 },
    }
}

/// Build the homogeneous world-transform matrix of a pose.
pub fn world_matrix_exec(rot: &Rot3, t: &Vec3R) -> (m: Mat4R)
    requires
        t.wf(),
    ensures
        m == world_matrix(*rot, *t),
        m.wf(),
{
    Mat4R {
        m00: Rat { num: rot.m00, den: 1 },
        m01: Rat { num: rot.m01, den: 1 },
        m02: Rat { num: rot.m02, den: 1 },
        m03: t.x,
        m10: Rat { num: rot.m10, den: 1 },
        m11: Rat { num: rot.m11, den: 1 },
        m12: Rat { num: rot.m12, den: 1 },
        m13: t.y,
        m20: Rat { num: rot.m20, den: 1 },
        m21: Rat { num: rot.m21, den: 1 },
        m22: Rat { num: rot.m22, den: 1 },
        m23: t.z,
        m30: Rat { num: 0, den: 1 },
        m31: Rat { num: 0, den: 1 },
        m32: Rat { num: 0, den: 1 },
        m33: Rat { num: 1, den: 1 },
    }
}

} // verus!
