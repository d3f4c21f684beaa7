//! Camera projections and the exact inverse of a perspective projection.
//!
//! A perspective clip-from-view matrix has the sparse shape
//!
//! ```text
//! [ a  0  0  0 ]
//! [ 0  b  0  0 ]
//! [ 0  0  c  d ]
//! [ 0  0 -1  0 ]
//! ```
//!
//! with `a`, `b`, `d` nonzero: `a` and `b` are the focal scales, and `c`, `d`
//! encode the depth mapping. The host supplies these four coefficients as
//! exact rationals; `invert_perspective` returns the exact inverse, proved to
//! multiply the projection back to the identity.

use crate::mat4::{ent, ident_ent, is_inverse_of, mul_ent, Mat4R};
use crate::rat::{
    lemma_radd_keep_left, lemma_radd_keep_right, lemma_radd_zero_left, lemma_radd_zero_right,
    lemma_sum4_zero, radd, rat_inv, rat_mul, rmul, rone, Rat, Ratg, COORD_BOUND,
};
use vstd::prelude::*;

verus! {

/// The data of a perspective projection: the four nonzero coefficients of
/// its clip-from-view matrix and the far-clip distance the projection was
/// configured with.
#[derive(Clone, Copy, PartialEq, Eq, Structural, Debug)]
pub struct PerspectiveClip {
    pub a: Rat,
    pub b: Rat,
    pub c: Rat,
    pub d: Rat,
    pub far: Rat,
}

impl PerspectiveClip {
    /// A valid perspective projection: the focal scales and the depth offset
    /// are nonzero, the far-clip distance is strictly positive, and all
    /// coefficients are bounded so the inverse stays in range.
    pub open spec fn wf(self) -> bool {
        &&& self.a.wf() && self.a.bounded() && self.a.num != 0
        &&& self.b.wf() && self.b.bounded() && self.b.num != 0
        &&& self.c.wf() && self.c.bounded()
        &&& self.d.wf() && self.d.bounded() && self.d.num != 0
        &&& self.far.wf() && self.far.bounded() && self.far.num > 0
    }
}

/// A camera projection: the cloud pipeline only supports perspective
/// projections, every other kind is a configuration error.
#[derive(Clone, Copy, PartialEq, Eq, Structural, Debug)]
pub enum Projection {
    Perspective(PerspectiveClip),
    Orthographic,
}

impl Projection {
    pub open spec fn wf(self) -> bool {
        match self {
            Projection::Perspective(p) => p.wf(),
            Projection::Orthographic => true,
        }
    }

    pub open spec fn is_perspective(self) -> bool {
        self is Perspective
    }
}

/// The clip-from-view matrix of a perspective projection.
pub open spec fn clip_from_view(p: PerspectiveClip) -> Mat4R {
    Mat4R {
        m00: p.a,
        m01: Rat { num: 0, den: 1 },
        m02: Rat { num: 0, den: 1 },
        m03: Rat { num: 0, den: 1 },
        m10: Rat { num: 0, den: 1 },
        m11: p.b,
        m12: Rat { num: 0, den: 1 },
        m13: Rat { num: 0, den: 1 },
        m20: Rat { num: 0, den: 1 },
        m21: Rat { num: 0, den: 1 },
        m22: p.c,
        m23: p.d,
        m30: Rat { num: 0, den: 1 },
        m31: Rat { num: 0, den: 1 },
        m32: Rat { num: ((-1) as i64), den: 1 },
        m33: Rat { num: 0, den: 1 },
    }
}

/// Build the clip-from-view matrix of a perspective projection.
pub fn clip_from_view_exec(p: &PerspectiveClip) -> (m: Mat4R)
    requires
        p.wf(),
    ensures
        m == clip_from_view(*p),
        m.wf(),
{
    let zero = Rat { num: 0, den: 1 };
    Mat4R {
        m00: p.a,
        m01: zero,
        m02: zero,
        m03: zero,
        m10: zero,
        m11: p.b,
        m12: zero,
        m13: zero,
        m20: zero,
        m21: zero,
        m22: p.c,
        m23: p.d,
        m30: zero,
        m31: zero,
        m32: Rat { num: -1, den: 1 },
        m33: zero,
    }
}

/// The exact inverse of a perspective clip-from-view matrix:
///
/// ```text
/// [ 1/a  0   0    0  ]
/// [ 0   1/b  0    0  ]
/// [ 0    0   0   -1  ]
/// [ 0    0  1/d  c/d ]
/// ```
///
/// The result is proved to be a left inverse: multiplied with the
/// projection it yields the identity matrix, entry by entry, as exact
/// rational values.
pub fn invert_perspective(p: &PerspectiveClip) -> (inv: Mat4R)
    requires
        p.wf(),
    ensures
        inv.wf(),
        is_inverse_of(inv, clip_from_view(*p)),
{
    let zero = Rat { num: 0, den: 1 };
    let ia = rat_inv(p.a);
    let ib = rat_inv(p.b);
    let idd = rat_inv(p.d);
    proof {
        assert(-COORD_BOUND <= idd.num <= COORD_BOUND && 0 < idd.den <= COORD_BOUND);
        assert(i64::MIN <= p.c.num * idd.num <= i64::MAX) by (nonlinear_arith)
            requires
                -COORD_BOUND <= p.c.num <= COORD_BOUND,
                -COORD_BOUND <= idd.num <= COORD_BOUND,
                COORD_BOUND == 0x4000_0000,
        ;
        assert(p.c.den * idd.den <= i64::MAX) by (nonlinear_arith)
            requires
                0 < p.c.den <= COORD_BOUND,
                0 < idd.den <= COORD_BOUND,
                COORD_BOUND == 0x4000_0000,
        ;
    }
    let q = rat_mul(p.c, idd);
    let inv = Mat4R {
        m00: ia,
        m01: zero,
        m02: zero,
        m03: zero,
        m10: zero,
        m11: ib,
        m12: zero,
        m13: zero,
        m20: zero,
        m21: zero,
        m22: zero,
        m23: Rat { num: -1, den: 1 },
        m30: zero,
        m31: zero,
        m32: idd,
        m33: q,
    };
    proof {
        lemma_inv_row0(inv, *p, ia@);
        lemma_inv_row1(inv, *p, ib@);
        lemma_inv_row2(inv, *p);
        lemma_inv_row3(inv, *p, idd@, q@);
    }
    inv
}

/// The rows of the matrix built by `invert_perspective`, each multiplied
/// against the columns of the clip-from-view matrix. The proof is split by
/// row so each lemma stays a small solver query.
///
/// In each lemma `inv` is the candidate inverse and `p` the projection;
/// `ia`, `ib`, `idd` are the values of the reciprocals of `a`, `b`, `d`,
/// and `q` the value of `c / d`.
proof fn lemma_inv_row0(inv: Mat4R, p: PerspectiveClip, ia: Ratg)
    requires
        inv.m00@ == ia,
        inv.m01@ == (Ratg { num: 0, den: 1 }),
        inv.m02@ == (Ratg { num: 0, den: 1 }),
        inv.m03@ == (Ratg { num: 0, den: 1 }),
        rmul(ia, p.a@).eq_val(rone()),
    ensures
        mul_ent(inv, clip_from_view(p), 0, 0).eq_val(ident_ent(0, 0)),
        mul_ent(inv, clip_from_view(p), 0, 1).eq_val(ident_ent(0, 1)),
        mul_ent(inv, clip_from_view(p), 0, 2).eq_val(ident_ent(0, 2)),
        mul_ent(inv, clip_from_view(p), 0, 3).eq_val(ident_ent(0, 3)),
{
    let m = clip_from_view(p);
    let t0 = rmul(ent(inv, 0, 0), ent(m, 0, 0));
    let t1 = rmul(ent(inv, 0, 1), ent(m, 1, 0));
    let t2 = rmul(ent(inv, 0, 2), ent(m, 2, 0));
    let t3 = rmul(ent(inv, 0, 3), ent(m, 3, 0));
    assert(t0 == rmul(ia, p.a@));
    assert(t0.num == t0.den);
    assert(t1.num == 0 && t2.num == 0 && t3.num == 0);
    lemma_radd_keep_right(t0, t1);
    lemma_radd_keep_right(radd(t0, t1), t2);
    lemma_radd_keep_right(radd(radd(t0, t1), t2), t3);
    assert(mul_ent(inv, m, 0, 0) == radd(radd(radd(t0, t1), t2), t3));

    let t0 = rmul(ent(inv, 0, 0), ent(m, 0, 1));
    let t1 = rmul(ent(inv, 0, 1), ent(m, 1, 1));
    let t2 = rmul(ent(inv, 0, 2), ent(m, 2, 1));
    let t3 = rmul(ent(inv, 0, 3), ent(m, 3, 1));
    assert(t0.num == 0 && t1.num == 0 && t2.num == 0 && t3.num == 0);
    lemma_sum4_zero(t0, t1, t2, t3);
    assert(mul_ent(inv, m, 0, 1) == radd(radd(radd(t0, t1), t2), t3));

    let t0 = rmul(ent(inv, 0, 0), ent(m, 0, 2));
    let t1 = rmul(ent(inv, 0, 1), ent(m, 1, 2));
    let t2 = rmul(ent(inv, 0, 2), ent(m, 2, 2));
    let t3 = rmul(ent(inv, 0, 3), ent(m, 3, 2));
    assert(t0.num == 0 && t1.num == 0 && t2.num == 0 && t3.num == 0);
    lemma_sum4_zero(t0, t1, t2, t3);
    assert(mul_ent(inv, m, 0, 2) == radd(radd(radd(t0, t1), t2), t3));

    let t0 = rmul(ent(inv, 0, 0), ent(m, 0, 3));
    let t1 = rmul(ent(inv, 0, 1), ent(m, 1, 3));
    let t2 = rmul(ent(inv, 0, 2), ent(m, 2, 3));
    let t3 = rmul(ent(inv, 0, 3), ent(m, 3, 3));
    assert(t0.num == 0 && t1.num == 0 && t2.num == 0 && t3.num == 0);
    lemma_sum4_zero(t0, t1, t2, t3);
    assert(mul_ent(inv, m, 0, 3) == radd(radd(radd(t0, t1), t2), t3));
}

proof fn lemma_inv_row1(inv: Mat4R, p: PerspectiveClip, ib: Ratg)
    requires
        inv.m11@ == ib,
        inv.m10@ == (Ratg { num: 0, den: 1 }),
        inv.m12@ == (Ratg { num: 0, den: 1 }),
        inv.m13@ == (Ratg { num: 0, den: 1 }),
        rmul(ib, p.b@).eq_val(rone()),
    ensures
        mul_ent(inv, clip_from_view(p), 1, 0).eq_val(ident_ent(1, 0)),
        mul_ent(inv, clip_from_view(p), 1, 1).eq_val(ident_ent(1, 1)),
        mul_ent(inv, clip_from_view(p), 1, 2).eq_val(ident_ent(1, 2)),
        mul_ent(inv, clip_from_view(p), 1, 3).eq_val(ident_ent(1, 3)),
{
    let m = clip_from_view(p);
    let t0 = rmul(ent(inv, 1, 0), ent(m, 0, 0));
    let t1 = rmul(ent(inv, 1, 1), ent(m, 1, 0));
    let t2 = rmul(ent(inv, 1, 2), ent(m, 2, 0));
    let t3 = rmul(ent(inv, 1, 3), ent(m, 3, 0));
    assert(t0.num == 0 && t1.num == 0 && t2.num == 0 && t3.num == 0);
    lemma_sum4_zero(t0, t1, t2, t3);
    assert(mul_ent(inv, m, 1, 0) == radd(radd(radd(t0, t1), t2), t3));

    let t0 = rmul(ent(inv, 1, 0), ent(m, 0, 1));
    let t1 = rmul(ent(inv, 1, 1), ent(m, 1, 1));
    let t2 = rmul(ent(inv, 1, 2), ent(m, 2, 1));
    let t3 = rmul(ent(inv, 1, 3), ent(m, 3, 1));
    assert(t0.num == 0);
    assert(t1 == rmul(ib, p.b@));
    assert(t1.num == t1.den);
    assert(t2.num == 0 && t3.num == 0);
    lemma_radd_keep_left(t0, t1);
    lemma_radd_keep_right(radd(t0, t1), t2);
    lemma_radd_keep_right(radd(radd(t0, t1), t2), t3);
    assert(mul_ent(inv, m, 1, 1) == radd(radd(radd(t0, t1), t2), t3));

    let t0 = rmul(ent(inv, 1, 0), ent(m, 0, 2));
    let t1 = rmul(ent(inv, 1, 1), ent(m, 1, 2));
    let t2 = rmul(ent(inv, 1, 2), ent(m, 2, 2));
    let t3 = rmul(ent(inv, 1, 3), ent(m, 3, 2));
    assert(t0.num == 0 && t1.num == 0 && t2.num == 0 && t3.num == 0);
    lemma_sum4_zero(t0, t1, t2, t3);
    assert(mul_ent(inv, m, 1, 2) == radd(radd(radd(t0, t1), t2), t3));

    let t0 = rmul(ent(inv, 1, 0), ent(m, 0, 3));
    let t1 = rmul(ent(inv, 1, 1), ent(m, 1, 3));
    let t2 = rmul(ent(inv, 1, 2), ent(m, 2, 3));
    let t3 = rmul(ent(inv, 1, 3), ent(m, 3, 3));
    assert(t0.num == 0 && t1.num == 0 && t2.num == 0 && t3.num == 0);
    lemma_sum4_zero(t0, t1, t2, t3);
    assert(mul_ent(inv, m, 1, 3) == radd(radd(radd(t0, t1), t2), t3));
}

proof fn lemma_inv_row2(inv: Mat4R, p: PerspectiveClip)
    requires
        inv.m20@ == (Ratg { num: 0, den: 1 }),
        inv.m21@ == (Ratg { num: 0, den: 1 }),
        inv.m22@ == (Ratg { num: 0, den: 1 }),
        inv.m23@ == (Ratg { num: -1, den: 1 }),
    ensures
        mul_ent(inv, clip_from_view(p), 2, 0).eq_val(ident_ent(2, 0)),
        mul_ent(inv, clip_from_view(p), 2, 1).eq_val(ident_ent(2, 1)),
        mul_ent(inv, clip_from_view(p), 2, 2).eq_val(ident_ent(2, 2)),
        mul_ent(inv, clip_from_view(p), 2, 3).eq_val(ident_ent(2, 3)),
{
    let m = clip_from_view(p);
    let t0 = rmul(ent(inv, 2, 0), ent(m, 0, 0));
    let t1 = rmul(ent(inv, 2, 1), ent(m, 1, 0));
    let t2 = rmul(ent(inv, 2, 2), ent(m, 2, 0));
    let t3 = rmul(ent(inv, 2, 3), ent(m, 3, 0));
    assert(t0.num == 0 && t1.num == 0 && t2.num == 0 && t3.num == 0);
    lemma_sum4_zero(t0, t1, t2, t3);
    assert(mul_ent(inv, m, 2, 0) == radd(radd(radd(t0, t1), t2), t3));

    let t0 = rmul(ent(inv, 2, 0), ent(m, 0, 1));
    let t1 = rmul(ent(inv, 2, 1), ent(m, 1, 1));
    let t2 = rmul(ent(inv, 2, 2), ent(m, 2, 1));
    let t3 = rmul(ent(inv, 2, 3), ent(m, 3, 1));
    assert(t0.num == 0 && t1.num == 0 && t2.num == 0 && t3.num == 0);
    lemma_sum4_zero(t0, t1, t2, t3);
    assert(mul_ent(inv, m, 2, 1) == radd(radd(radd(t0, t1), t2), t3));

    let t0 = rmul(ent(inv, 2, 0), ent(m, 0, 2));
    let t1 = rmul(ent(inv, 2, 1), ent(m, 1, 2));
    let t2 = rmul(ent(inv, 2, 2), ent(m, 2, 2));
    let t3 = rmul(ent(inv, 2, 3), ent(m, 3, 2));
    assert(t0.num == 0 && t1.num == 0 && t2.num == 0);
    assert(t3.num == t3.den);
    lemma_radd_zero_right(t0, t1);
    assert(radd(t0, t1).num == 0);
    lemma_radd_zero_right(radd(t0, t1), t2);
    assert(radd(radd(t0, t1), t2).num == 0);
    lemma_radd_keep_left(radd(radd(t0, t1), t2), t3);
    assert(mul_ent(inv, m, 2, 2) == radd(radd(radd(t0, t1), t2), t3));

    let t0 = rmul(ent(inv, 2, 0), ent(m, 0, 3));
    let t1 = rmul(ent(inv, 2, 1), ent(m, 1, 3));
    let t2 = rmul(ent(inv, 2, 2), ent(m, 2, 3));
    let t3 = rmul(ent(inv, 2, 3), ent(m, 3, 3));
    assert(t0.num == 0 && t1.num == 0 && t2.num == 0 && t3.num == 0);
    lemma_sum4_zero(t0, t1, t2, t3);
    assert(mul_ent(inv, m, 2, 3) == radd(radd(radd(t0, t1), t2), t3));
}

proof fn lemma_inv_row3(inv: Mat4R, p: PerspectiveClip, idd: Ratg, q: Ratg)
    requires
        inv.m32@ == idd,
        inv.m33@ == q,
        inv.m30@ == (Ratg { num: 0, den: 1 }),
        inv.m31@ == (Ratg { num: 0, den: 1 }),
        rmul(idd, p.d@).eq_val(rone()),
        q == rmul(p.c@, idd),
    ensures
        mul_ent(inv, clip_from_view(p), 3, 0).eq_val(ident_ent(3, 0)),
        mul_ent(inv, clip_from_view(p), 3, 1).eq_val(ident_ent(3, 1)),
        mul_ent(inv, clip_from_view(p), 3, 2).eq_val(ident_ent(3, 2)),
        mul_ent(inv, clip_from_view(p), 3, 3).eq_val(ident_ent(3, 3)),
{
    let m = clip_from_view(p);
    let t0 = rmul(ent(inv, 3, 0), ent(m, 0, 0));
    let t1 = rmul(ent(inv, 3, 1), ent(m, 1, 0));
    let t2 = rmul(ent(inv, 3, 2), ent(m, 2, 0));
    let t3 = rmul(ent(inv, 3, 3), ent(m, 3, 0));
    assert(t0.num == 0 && t1.num == 0 && t2.num == 0 && t3.num == 0);
    lemma_sum4_zero(t0, t1, t2, t3);
    assert(mul_ent(inv, m, 3, 0) == radd(radd(radd(t0, t1), t2), t3));
    assert(mul_ent(inv, m, 3, 0).num == 0);

    let t0 = rmul(ent(inv, 3, 0), ent(m, 0, 1));
    let t1 = rmul(ent(inv, 3, 1), ent(m, 1, 1));
    let t2 = rmul(ent(inv, 3, 2), ent(m, 2, 1));
    let t3 = rmul(ent(inv, 3, 3), ent(m, 3, 1));
    assert(t0.num == 0 && t1.num == 0 && t2.num == 0 && t3.num == 0);
    lemma_sum4_zero(t0, t1, t2, t3);
    assert(mul_ent(inv, m, 3, 1) == radd(radd(radd(t0, t1), t2), t3));
    assert(mul_ent(inv, m, 3, 1).num == 0);

    // Third column: the terms (1/d)c and (c/d)(-1) cancel exactly.
    let t0 = rmul(ent(inv, 3, 0), ent(m, 0, 2));
    let t1 = rmul(ent(inv, 3, 1), ent(m, 1, 2));
    let t2 = rmul(ent(inv, 3, 2), ent(m, 2, 2));
    let t3 = rmul(ent(inv, 3, 3), ent(m, 3, 2));
    assert(t0.num == 0 && t1.num == 0);
    lemma_radd_zero_right(t0, t1);
    let s1 = radd(t0, t1);
    assert(s1.num == 0);
    lemma_radd_zero_left(s1, t2);
    let s2 = radd(s1, t2);
    let s3 = radd(s2, t3);
    assert(t2.num == idd.num * p.c.num && t2.den == idd.den * p.c.den);
    assert(ent(m, 3, 2).num == -1 && ent(m, 3, 2).den == 1);
    assert(t3.num == -q.num && t3.den == q.den) by (nonlinear_arith)
        requires
            t3.num == q.num * ent(clip_from_view(p), 3, 2).num,
            t3.den == q.den * ent(clip_from_view(p), 3, 2).den,
            ent(clip_from_view(p), 3, 2).num == -1,
            ent(clip_from_view(p), 3, 2).den == 1,
    ;
    assert(s3.num == 0) by (nonlinear_arith)
        requires
            s3.num == s2.num * t3.den + t3.num * s2.den,
            s2.num == t2.num * s1.den,
            s2.den == s1.den * t2.den,
            t2.num == idd.num * p.c.num,
            t2.den == idd.den * p.c.den,
            t3.num == -q.num,
            t3.den == q.den,
            q.num == p.c.num * idd.num,
            q.den == p.c.den * idd.den,
    ;
    assert(mul_ent(inv, m, 3, 2) == s3);

    let t0 = rmul(ent(inv, 3, 0), ent(m, 0, 3));
    let t1 = rmul(ent(inv, 3, 1), ent(m, 1, 3));
    let t2 = rmul(ent(inv, 3, 2), ent(m, 2, 3));
    let t3 = rmul(ent(inv, 3, 3), ent(m, 3, 3));
    assert(t0.num == 0 && t1.num == 0);
    assert(t2 == rmul(idd, p.d@));
    assert(t2.num == t2.den);
    assert(t3.num == 0);
    lemma_radd_zero_right(t0, t1);
    assert(radd(t0, t1).num == 0);
    lemma_radd_keep_left(radd(t0, t1), t2);
    lemma_radd_keep_right(radd(radd(t0, t1), t2), t3);
    assert(mul_ent(inv, m, 3, 3) == radd(radd(radd(t0, t1), t2), t3));
}

/// Executable test for `PerspectiveClip::wf`, for callers that receive
/// runtime data.
pub fn perspective_is_wf(p: &PerspectiveClip) -> (b: bool)
    ensures
        b == p.wf(),
{
    let ba = crate::rat::rat_is_bounded(&p.a);
    let bb = crate::rat::rat_is_bounded(&p.b);
    let bc = crate::rat::rat_is_bounded(&p.c);
    let bd = crate::rat::rat_is_bounded(&p.d);
    let bf = crate::rat::rat_is_bounded(&p.far);
    ba && p.a.num != 0 && bb && p.b.num != 0 && bc && bd && p.d.num != 0 && bf && p.far.num > 0
}

} // verus!
