//! Exact 3x3 rotation matrices.
//!
//! Skybox faces (and camera poses in this model) are oriented by compositions
//! of quarter-turn axis rotations. Every such rotation is a signed permutation
//! matrix with entries in {-1, 0, 1} and determinant one, so orientations are
//! represented exactly as integer matrices; no trigonometry is involved.

use vstd::prelude::*;

verus! {

/// A 3x3 matrix with `i64` entries, row major: `m<row><column>`.
#[derive(Clone, Copy, PartialEq, Eq, Structural, Debug)]
pub struct Rot3 {
    pub m00: i64,
    pub m01: i64,
    pub m02: i64,
    pub m10: i64,
    pub m11: i64,
    pub m12: i64,
    pub m20: i64,
    pub m21: i64,
    pub m22: i64,
}

/// One where the entry is nonzero, zero otherwise.
pub open spec fn unit_count(e: int) -> int {
    if e == 0 {
        0
    } else {
        1
    }
}

impl Rot3 {
    /// The matrix determinant.
    pub open spec fn det(self) -> int {
        self.m00 * (self.m11 * self.m22 - self.m12 * self.m21) - self.m01 * (self.m10 * self.m22
            - self.m12 * self.m20) + self.m02 * (self.m10 * self.m21 - self.m11 * self.m20)
    }

    /// A proper rotation of the axis grid: every entry lies in {-1, 0, 1},
    /// every row and every column holds exactly one nonzero entry, and the
    /// determinant is one.
    pub open spec fn wf(self) -> bool {
        &&& -1 <= self.m00 <= 1
        &&& -1 <= self.m01 <= 1
        &&& -1 <= self.m02 <= 1
        &&& -1 <= self.m10 <= 1
        &&& -1 <= self.m11 <= 1
        &&& -1 <= self.m12 <= 1
        &&& -1 <= self.m20 <= 1
        &&& -1 <= self.m21 <= 1
        &&& -1 <= self.m22 <= 1
        &&& unit_count(self.m00 as int) + unit_count(self.m01 as int) + unit_count(
            self.m02 as int,
        ) == 1
        &&& unit_count(self.m10 as int) + unit_count(self.m11 as int) + unit_count(
            self.m12 as int,
        ) == 1
        &&& unit_count(self.m20 as int) + unit_count(self.m21 as int) + unit_count(
            self.m22 as int,
        ) == 1
        &&& unit_count(self.m00 as int) + unit_count(self.m10 as int) + unit_count(
            self.m20 as int,
        ) == 1
        &&& unit_count(self.m01 as int) + unit_count(self.m11 as int) + unit_count(
            self.m21 as int,
        ) == 1
        &&& unit_count(self.m02 as int) + unit_count(self.m12 as int) + unit_count(
            self.m22 as int,
        ) == 1
        &&& self.det() == 1
    }

    /// The image of the local up axis (0, 1, 0) under this rotation: its
    /// second column. A skybox plane's mesh faces along its local up axis, so
    /// this is the direction the spawned plane faces in world space.
    pub open spec fn forward_x(self) -> int {
        self.m01 as int
    }

    pub open spec fn forward_y(self) -> int {
        self.m11 as int
    }

    pub open spec fn forward_z(self) -> int {
        self.m21 as int
    }

    /// The identity rotation.
    pub fn identity() -> (r: Rot3)
        ensures
            r == (Rot3 { m00: 1, m01: 0, m02: 0, m10: 0, m11: 1, m12: 0, m20: 0, m21: 0, m22: 1 }),
            r.wf(),
    {
        Rot3 { m00: 1, m01: 0, m02: 0, m10: 0, m11: 1, m12: 0, m20: 0, m21: 0, m22: 1 }
    }
}

/// Cosine of `q` quarter turns.
pub open spec fn cos_q(q: int) -> int {
    if q == 0 {
        1
    } else if q == 2 {
        -1
    } else {
        0
    }
}

/// Sine of `q` quarter turns.
pub open spec fn sin_q(q: int) -> int {
    if q == 1 {
        1
    } else if q == 3 {
        -1
    } else {
        0
    }
}

/// Executable cosine of `q` quarter turns.
fn cos_quarters(q: u8) -> (c: i64)
    requires
        q < 4,
    ensures
        c == cos_q(q as int),
{
    if q == 0 {
        1
    } else if q == 2 {
        -1
    } else {
        0
    }
}

/// Executable sine of `q` quarter turns.
fn sin_quarters(q: u8) -> (s: i64)
    requires
        q < 4,
    ensures
        s == sin_q(q as int),
{
    if q == 1 {
        1
    } else if q == 3 {
        -1
    } else {
        0
    }
}

/// Rotation by `q` quarter turns about the X axis (right-handed).
pub fn rot_x(q: u8) -> (r: Rot3)
    requires
        q < 4,
    ensures
        r.m00 == 1 && r.m01 == 0 && r.m02 == 0,
        r.m10 == 0 && r.m11 == cos_q(q as int) && r.m12 == -sin_q(q as int),
        r.m20 == 0 && r.m21 == sin_q(q as int) && r.m22 == cos_q(q as int),
        r.wf(),
{
    let c = cos_quarters(q);
    let s = sin_quarters(q);
    let r = Rot3 { m00: 1, m01: 0, m02: 0, m10: 0, m11: c, m12: -s, m20: 0, m21: s, m22: c };
    proof {
        if q == 0 {
            assert(c == 1 && s == 0);
        } else if q == 1 {
            assert(c == 0 && s == 1);
        } else if q == 2 {
            assert(c == -1 && s == 0);
        } else {
            assert(c == 0 && s == -1);
        }
        assert(r.wf());
    }
    r
}

/// Rotation by `q` quarter turns about the Y axis (right-handed).
pub fn rot_y(q: u8) -> (r: Rot3)
    requires
        q < 4,
    ensures
        r.m00 == cos_q(q as int) && r.m01 == 0 && r.m02 == sin_q(q as int),
        r.m10 == 0 && r.m11 == 1 && r.m12 == 0,
        r.m20 == -sin_q(q as int) && r.m21 == 0 && r.m22 == cos_q(q as int),
        r.wf(),
{
    let c = cos_quarters(q);
    let s = sin_quarters(q);
    let r = Rot3 { m00: c, m01: 0, m02: s, m10: 0, m11: 1, m12: 0, m20: -s, m21: 0, m22: c };
    proof {
        if q == 0 {
            assert(c == 1 && s == 0);
        } else if q == 1 {
            assert(c == 0 && s == 1);
        } else if q == 2 {
            assert(c == -1 && s == 0);
        } else {
            assert(c == 0 && s == -1);
        }
        assert(r.wf());
    }
    r
}

/// Rotation by `q` quarter turns about the Z axis (right-handed).
pub fn rot_z(q: u8) -> (r: Rot3)
    requires
        q < 4,
    ensures
        r.m00 == cos_q(q as int) && r.m01 == -sin_q(q as int) && r.m02 == 0,
        r.m10 == sin_q(q as int) && r.m11 == cos_q(q as int) && r.m12 == 0,
        r.m20 == 0 && r.m21 == 0 && r.m22 == 1,
        r.wf(),
{
    let c = cos_quarters(q);
    let s = sin_quarters(q);
    let r = Rot3 { m00: c, m01: -s, m02: 0, m10: s, m11: c, m12: 0, m20: 0, m21: 0, m22: 1 };
    proof {
        if q == 0 {
            assert(c == 1 && s == 0);
        } else if q == 1 {
            assert(c == 0 && s == 1);
        } else if q == 2 {
            assert(c == -1 && s == 0);
        } else {
            assert(c == 0 && s == -1);
        }
        assert(r.wf());
    }
    r
}

/// Product of two entries that both lie in {-1, 0, 1}.
fn unit_mul(x: i64, y: i64) -> (p: i64)
    requires
        -1 <= x <= 1,
        -1 <= y <= 1,
    ensures
        p == x * y,
        -1 <= p <= 1,
{
    proof {
        assert(-1 <= x * y <= 1) by (nonlinear_arith)
            requires
                -1 <= x <= 1,
                -1 <= y <= 1,
        ;
    }
    x * y
}

/// Dot product of a row and a column whose entries all lie in {-1, 0, 1}.
fn unit_dot(ax: i64, ay: i64, az: i64, bx: i64, by: i64, bz: i64) -> (d: i64)
    requires
        -1 <= ax <= 1,
        -1 <= ay <= 1,
        -1 <= az <= 1,
        -1 <= bx <= 1,
        -1 <= by <= 1,
        -1 <= bz <= 1,
    ensures
        d == ax * bx + ay * by + az * bz,
        -3 <= d <= 3,
{
    let p0 = unit_mul(ax, bx);
    let p1 = unit_mul(ay, by);
    let p2 = unit_mul(az, bz);
    p0 + p1 + p2
}

/// Matrix product `a * b`: the rotation that applies `b` first, then `a`,
/// matching the order of quaternion composition.
pub fn compose(a: &Rot3, b: &Rot3) -> (r: Rot3)
    requires
        a.wf(),
        b.wf(),
    ensures
        r.m00 == a.m00 * b.m00 + a.m01 * b.m10 + a.m02 * b.m20,
        r.m01 == a.m00 * b.m01 + a.m01 * b.m11 + a.m02 * b.m21,
        r.m02 == a.m00 * b.m02 + a.m01 * b.m12 + a.m02 * b.m22,
        r.m10 == a.m10 * b.m00 + a.m11 * b.m10 + a.m12 * b.m20,
        r.m11 == a.m10 * b.m01 + a.m11 * b.m11 + a.m12 * b.m21,
        r.m12 == a.m10 * b.m02 + a.m11 * b.m12 + a.m12 * b.m22,
        r.m20 == a.m20 * b.m00 + a.m21 * b.m10 + a.m22 * b.m20,
        r.m21 == a.m20 * b.m01 + a.m21 * b.m11 + a.m22 * b.m21,
        r.m22 == a.m20 * b.m02 + a.m21 * b.m12 + a.m22 * b.m22,
{
    Rot3 {
        m00: unit_dot(a.m00, a.m01, a.m02, b.m00, b.m10, b.m20),
        m01: unit_dot(a.m00, a.m01, a.m02, b.m01, b.m11, b.m21),
        m02: unit_dot(a.m00, a.m01, a.m02, b.m02, b.m12, b.m22),
        m10: unit_dot(a.m10, a.m11, a.m12, b.m00, b.m10, b.m20),
        m11: unit_dot(a.m10, a.m11, a.m12, b.m01, b.m11, b.m21),
        m12: unit_dot(a.m10, a.m11, a.m12, b.m02, b.m12, b.m22),
        m20: unit_dot(a.m20, a.m21, a.m22, b.m00, b.m10, b.m20),
        m21: unit_dot(a.m20, a.m21, a.m22, b.m01, b.m11, b.m21),
        m22: unit_dot(a.m20, a.m21, a.m22, b.m02, b.m12, b.m22),
    }
}

/// Executable test for `Rot3::wf`, for callers that receive runtime data.
pub fn rot3_is_wf(r: &Rot3) -> (b: bool)
    ensures
        b == r.wf(),
{
    let entries_ok = -1 <= r.m00 && r.m00 <= 1 && -1 <= r.m01 && r.m01 <= 1 && -1 <= r.m02
        && r.m02 <= 1 && -1 <= r.m10 && r.m10 <= 1 && -1 <= r.m11 && r.m11 <= 1 && -1 <= r.m12
        && r.m12 <= 1 && -1 <= r.m20 && r.m20 <= 1 && -1 <= r.m21 && r.m21 <= 1 && -1 <= r.m22
        && r.m22 <= 1;
    if !entries_ok {
        return false;
    }
    let rows_ok = unit_entry(r.m00) + unit_entry(r.m01) + unit_entry(r.m02) == 1 && unit_entry(
        r.m10,
    ) + unit_entry(r.m11) + unit_entry(r.m12) == 1 && unit_entry(r.m20) + unit_entry(r.m21)
        + unit_entry(r.m22) == 1;
    let cols_ok = unit_entry(r.m00) + unit_entry(r.m10) + unit_entry(r.m20) == 1 && unit_entry(
        r.m01,
    ) + unit_entry(r.m11) + unit_entry(r.m21) == 1 && unit_entry(r.m02) + unit_entry(r.m12)
        + unit_entry(r.m22) == 1;
    if !(rows_ok && cols_ok) {
        return false;
    }
    let c0 = unit_mul(r.m11, r.m22) - unit_mul(r.m12, r.m21);
    let c1 = unit_mul(r.m10, r.m22) - unit_mul(r.m12, r.m20);
    let c2 = unit_mul(r.m10, r.m21) - unit_mul(r.m11, r.m20);
    let det = unit_mul3(r.m00, c0) - unit_mul3(r.m01, c1) + unit_mul3(r.m02, c2);
    det == 1
}

/// One where the entry is nonzero, zero otherwise.
fn unit_entry(e: i64) -> (c: i64)
    ensures
        c == unit_count(e as int),
{
    if e == 0 {
        0
    } else {
        1
    }
}

/// Product of an entry in {-1, 0, 1} and a cofactor in {-2, ..., 2}.
fn unit_mul3(x: i64, y: i64) -> (p: i64)
    requires
        -1 <= x <= 1,
        -2 <= y <= 2,
    ensures
        p == x * y,
        -2 <= p <= 2,
{
    proof {
        assert(-2 <= x * y <= 2) by (nonlinear_arith)
            requires
                -1 <= x <= 1,
                -2 <= y <= 2,
        ;
    }
    x * y
}

} // verus!
