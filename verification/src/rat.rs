//! Exact rational scalars.
//!
//! Every scalar quantity of the library (coordinates, scales, projection
//! coefficients) is an exact rational number: an `i64` numerator over a
//! strictly positive `i64` denominator. The ghost counterpart `Ratg` carries
//! unbounded integers, so the arithmetic in contracts is exact mathematics,
//! while the executable operations carry preconditions that rule overflow out.

use vstd::prelude::*;

verus! {

/// Magnitude bound on the numerators and denominators of rationals that the
/// entity store admits as camera data. It keeps every product and sum that one
/// update cycle forms inside `i64`.
pub const COORD_BOUND: i64 = 0x4000_0000;

/// An exact rational number. The denominator is kept strictly positive.
#[derive(Clone, Copy, PartialEq, Eq, Structural, Debug)]
pub struct Rat {
    pub num: i64,
    pub den: i64,
}

/// The mathematical value of a rational, with unbounded integer parts.
pub ghost struct Ratg {
    pub num: int,
    pub den: int,
}

impl View for Rat {
    type V = Ratg;

    open spec fn view(&self) -> Ratg {
        Ratg { num: self.num as int, den: self.den as int }
    }
}

impl Rat {
    /// Well-formed: strictly positive denominator.
    pub open spec fn wf(self) -> bool {
        self.den > 0
    }

    /// Both parts bounded in magnitude by `COORD_BOUND`.
    pub open spec fn bounded(self) -> bool {
        -COORD_BOUND <= self.num <= COORD_BOUND && 0 < self.den <= COORD_BOUND
    }
}

impl Ratg {
    pub open spec fn wf(self) -> bool {
        self.den > 0
    }

    /// The two rationals denote the same value (cross multiplication).
    pub open spec fn eq_val(self, other: Ratg) -> bool {
        self.num * other.den == other.num * self.den
    }

    /// The rational denotes exactly the integer `n`.
    pub open spec fn is_int(self, n: int) -> bool {
        self.num == n * self.den
    }
}

/// Exact product of two rational values.
pub open spec fn rmul(a: Ratg, b: Ratg) -> Ratg {
    Ratg { num: a.num * b.num, den: a.den * b.den }
}

/// Exact sum of two rational values.
pub open spec fn radd(a: Ratg, b: Ratg) -> Ratg {
    Ratg { num: a.num * b.den + b.num * a.den, den: a.den * b.den }
}

/// Exact negation of a rational value.
pub open spec fn rneg(a: Ratg) -> Ratg {
    Ratg { num: -a.num, den: a.den }
}

pub open spec fn rzero() -> Ratg {
    Ratg { num: 0, den: 1 }
}

pub open spec fn rone() -> Ratg {
    Ratg { num: 1, den: 1 }
}

/// Exact product; the preconditions keep both parts inside `i64`.
pub fn rat_mul(a: Rat, b: Rat) -> (r: Rat)
    requires
        a.wf(),
        b.wf(),
        i64::MIN <= a.num * b.num <= i64::MAX,
        a.den * b.den <= i64::MAX,
    ensures
        r.wf(),
        r@ == rmul(a@, b@),
{
    proof {
        assert(a.den * b.den > 0) by (nonlinear_arith)
            requires
                a.den > 0,
                b.den > 0,
        ;
    }
    Rat { num: a.num * b.num, den: a.den * b.den }
}

/// Exact sum; the preconditions keep both parts inside `i64`.
pub fn rat_add(a: Rat, b: Rat) -> (r: Rat)
    requires
        a.wf(),
        b.wf(),
        i64::MIN <= a.num * b.den <= i64::MAX,
        i64::MIN <= b.num * a.den <= i64::MAX,
        i64::MIN <= a.num * b.den + b.num * a.den <= i64::MAX,
        a.den * b.den <= i64::MAX,
    ensures
        r.wf(),
        r@ == radd(a@, b@),
{
    proof {
        assert(a.den * b.den > 0) by (nonlinear_arith)
            requires
                a.den > 0,
                b.den > 0,
        ;
    }
    Rat { num: a.num * b.den + b.num * a.den, den: a.den * b.den }
}

/// Exact negation.
pub fn rat_neg(a: Rat) -> (r: Rat)
    requires
        a.wf(),
        a.num > i64::MIN,
    ensures
        r.wf(),
        r@ == rneg(a@),
{
    Rat { num: -a.num, den: a.den }
}

/// Exact multiplicative inverse of a nonzero rational.
pub fn rat_inv(a: Rat) -> (r: Rat)
    requires
        a.wf(),
        a.num != 0,
        a.num > i64::MIN,
    ensures
        r.wf(),
        rmul(r@, a@).eq_val(rone()),
        a.num > 0 ==> r == (Rat { num: a.den, den: a.num }),
        a.num < 0 ==> r.num == -a.den && r.den == -a.num,
{
    if a.num > 0 {
        proof {
            assert(a.den * a.num == a.num * a.den) by (nonlinear_arith);
        }
        Rat { num: a.den, den: a.num }
    } else {
        proof {
            assert((-a.den) * a.num == (-a.num) * a.den) by (nonlinear_arith);
        }
        Rat { num: -a.den, den: -a.num }
    }
}

/// Adding a zero-valued rational on the right scales the parts but keeps
/// the numerator a multiple of the left operand's.
pub proof fn lemma_radd_zero_right(s: Ratg, t: Ratg)
    requires
        t.num == 0,
    ensures
        radd(s, t).num == s.num * t.den,
        radd(s, t).den == s.den * t.den,
{
    assert(s.num * t.den + t.num * s.den == s.num * t.den) by (nonlinear_arith)
        requires
            t.num == 0,
    ;
}

/// Adding a zero-valued rational on the left scales the parts but keeps
/// the numerator a multiple of the right operand's.
pub proof fn lemma_radd_zero_left(s: Ratg, t: Ratg)
    requires
        s.num == 0,
    ensures
        radd(s, t).num == t.num * s.den,
        radd(s, t).den == s.den * t.den,
{
    assert(s.num * t.den + t.num * s.den == t.num * s.den) by (nonlinear_arith)
        requires
            s.num == 0,
    ;
}

/// Adding a zero-valued rational on the right keeps the value one
/// (numerator equal to denominator).
pub proof fn lemma_radd_keep_right(s: Ratg, t: Ratg)
    requires
        t.num == 0,
        s.num == s.den,
    ensures
        radd(s, t).num == radd(s, t).den,
{
    lemma_radd_zero_right(s, t);
}

/// Adding a one-valued rational to a zero-valued one yields the value one.
pub proof fn lemma_radd_keep_left(s: Ratg, t: Ratg)
    requires
        s.num == 0,
        t.num == t.den,
    ensures
        radd(s, t).num == radd(s, t).den,
{
    lemma_radd_zero_left(s, t);
    assert(t.den * s.den == s.den * t.den) by (nonlinear_arith);
}

/// A sum of four zero-valued rationals is zero-valued.
pub proof fn lemma_sum4_zero(t0: Ratg, t1: Ratg, t2: Ratg, t3: Ratg)
    requires
        t0.num == 0,
        t1.num == 0,
        t2.num == 0,
        t3.num == 0,
    ensures
        radd(radd(radd(t0, t1), t2), t3).num == 0,
{
    lemma_radd_zero_right(t0, t1);
    lemma_radd_zero_right(radd(t0, t1), t2);
    lemma_radd_zero_right(radd(radd(t0, t1), t2), t3);
}

/// Executable test for `Rat::wf`, for callers that receive runtime data.
pub fn rat_is_wf(a: &Rat) -> (b: bool)
    ensures
        b == a.wf(),
{
    a.den > 0
}

/// Executable test for `Rat::bounded`.
pub fn rat_is_bounded(a: &Rat) -> (b: bool)
    ensures
        b == a.bounded(),
{
    -COORD_BOUND <= a.num && a.num <= COORD_BOUND && 0 < a.den && a.den <= COORD_BOUND
}

} // verus!
