use vstd::prelude::*;

verus! {

/// An exact rational number `num / den`, with `den > 0`.
///
/// All editor geometry (screen and world coordinates, the viewport scale,
/// node positions and sizes) is kept as exact rationals, so the coordinate
/// transforms invert exactly and layout arithmetic never rounds.
///
/// Values are not kept in lowest terms; two `Rat`s denote the same number
/// exactly when `q_eq` holds of their views. Specifications are stated over
/// the view `q()`, a pair of unbounded integers, with the arithmetic given
/// by the `q_*` spec functions below.
#[derive(Clone, Copy, Debug, PartialEq, Eq, Structural)]
pub struct Rat {
    pub num: i64,
    pub den: i64,
}

/// A rational view is well formed when its denominator is positive.
pub open spec fn q_wf(a: (int, int)) -> bool {
    a.1 > 0
}

/// Equality of rationals by cross-multiplication.
pub open spec fn q_eq(a: (int, int), b: (int, int)) -> bool {
    a.0 * b.1 == b.0 * a.1
}

/// `a <= b` on rationals, by cross-multiplication (denominators positive).
pub open spec fn q_le(a: (int, int), b: (int, int)) -> bool {
    a.0 * b.1 <= b.0 * a.1
}

/// `a < b` on rationals, by cross-multiplication (denominators positive).
pub open spec fn q_lt(a: (int, int), b: (int, int)) -> bool {
    a.0 * b.1 < b.0 * a.1
}

/// The exact sum, as computed over a common denominator.
pub open spec fn q_plus(a: (int, int), b: (int, int)) -> (int, int) {
    (a.0 * b.1 + b.0 * a.1, a.1 * b.1)
}

/// The exact difference, as computed over a common denominator.
pub open spec fn q_minus(a: (int, int), b: (int, int)) -> (int, int) {
    (a.0 * b.1 - b.0 * a.1, a.1 * b.1)
}

/// The exact product.
pub open spec fn q_times(a: (int, int), b: (int, int)) -> (int, int) {
    (a.0 * b.0, a.1 * b.1)
}

/// The exact quotient, with the sign moved into the numerator so that the
/// resulting denominator stays positive. Meaningful only when `b.0 != 0`.
pub open spec fn q_div(a: (int, int), b: (int, int)) -> (int, int) {
    if b.0 >= 0 {
        (a.0 * b.1, a.1 * b.0)
    } else {
        (-(a.0 * b.1), -(a.1 * b.0))
    }
}

/// The larger of two rational views; on a tie the first is kept. Mirrors the
/// representative that `Rat::max_of` returns.
pub open spec fn q_max2(a: (int, int), b: (int, int)) -> (int, int) {
    if q_lt(a, b) {
        b
    } else {
        a
    }
}

/// Whether an unbounded integer fits in the machine representation.
pub open spec fn in_i64(x: int) -> bool {
    -0x8000_0000_0000_0000 <= x && x <= 0x7fff_ffff_ffff_ffff
}

/// Whether both components of a rational view fit in the machine
/// representation, so that an exec `Rat` can hold the value.
pub open spec fn q_fits(a: (int, int)) -> bool {
    in_i64(a.0) && in_i64(a.1)
}

/// A product of two `i64`-range integers; its magnitude stays within `2^126`,
/// so it always fits an `i128`.
proof fn lemma_i64_mul_in_i128(a: int, b: int)
    by (nonlinear_arith)
    requires
        in_i64(a),
        in_i64(b),
    ensures
        -0x4000_0000_0000_0000_0000_0000_0000_0000 <= a * b
            <= 0x4000_0000_0000_0000_0000_0000_0000_0000,
{
}

/// A product of two positive integers is positive.
pub proof fn lemma_mul_pos(a: int, b: int)
    by (nonlinear_arith)
    requires
        a > 0,
        b > 0,
    ensures
        a * b > 0,
{
}

/// A product of a positive and a negative integer is negative.
pub proof fn lemma_mul_pos_neg(a: int, b: int)
    by (nonlinear_arith)
    requires
        a > 0,
        b < 0,
    ensures
        a * b < 0,
{
}

/// A product of an `i64`-range integer and a positive denominator stays
/// strictly below `2^126`, so two such products can be added in `i128`.
proof fn lemma_i64_mul_den_bound(a: int, d: int)
    by (nonlinear_arith)
    requires
        in_i64(a),
        0 < d <= 0x7fff_ffff_ffff_ffff,
    ensures
        -0x3fff_ffff_ffff_ffff_8000_0000_0000_0000 <= a * d
            <= 0x3fff_ffff_ffff_ffff_8000_0000_0000_0000,
{
}

/// Shifting both sides of `<=` by the same rational, stated over the raw
/// numerators and denominators.
proof fn lemma_le_shift_ints(a0: int, a1: int, b0: int, b1: int, d0: int, d1: int)
    by (nonlinear_arith)
    requires
        a1 > 0,
        b1 > 0,
        d1 > 0,
        a0 * b1 <= b0 * a1,
    ensures
        (a0 * d1 + d0 * a1) * (b1 * d1) <= (b0 * d1 + d0 * b1) * (a1 * d1),
{
}

/// Rearranging `(n + w) + d` into `(n + d) + w` permutes the same
/// monomials, component by component.
proof fn lemma_sum_rearrange_ints(n0: int, n1: int, w0: int, w1: int, d0: int, d1: int)
    by (nonlinear_arith)
    ensures
        (n0 * w1 + w0 * n1) * d1 + d0 * (n1 * w1) == (n0 * d1 + d0 * n1) * w1 + w0 * (n1 * d1),
        (n1 * w1) * d1 == (n1 * d1) * w1,
{
}

/// Adding the same rational to both sides keeps `<=`.
pub proof fn lemma_q_le_shift(a: (int, int), b: (int, int), d: (int, int))
    requires
        a.1 > 0,
        b.1 > 0,
        d.1 > 0,
        q_le(a, b),
    ensures
        q_le(q_plus(a, d), q_plus(b, d)),
{
    lemma_le_shift_ints(a.0, a.1, b.0, b.1, d.0, d.1);
}

/// From `p <= n + w`, conclude `p + d <= (n + d) + w`: translating both the
/// point and the interval start keeps the point within the interval's end.
pub proof fn lemma_q_le_shift_into_sum(p: (int, int), n: (int, int), w: (int, int), d: (int, int))
    requires
        p.1 > 0,
        n.1 > 0,
        w.1 > 0,
        d.1 > 0,
        q_le(p, q_plus(n, w)),
    ensures
        q_le(q_plus(p, d), q_plus(q_plus(n, d), w)),
{
    lemma_mul_pos(n.1, w.1);
    lemma_q_le_shift(p, q_plus(n, w), d);
    lemma_sum_rearrange_ints(n.0, n.1, w.0, w.1, d.0, d.1);
    assert(q_plus(q_plus(n, w), d) == q_plus(q_plus(n, d), w));
}

/// Exact product of an `i64` value and a positive denominator, in `i128`.
fn mul_i64_den(a: i64, d: i64) -> (r: i128)
    requires
        d > 0,
    ensures
        r == a as int * d as int,
        -0x3fff_ffff_ffff_ffff_8000_0000_0000_0000 <= r as int
            <= 0x3fff_ffff_ffff_ffff_8000_0000_0000_0000,
{
    proof {
        lemma_i64_mul_den_bound(a as int, d as int);
    }
    (a as i128) * (d as i128)
}

/// Exact product of two `i64` values, carried out in `i128`.
fn mul_i64(a: i64, b: i64) -> (r: i128)
    ensures
        r == a as int * b as int,
        -0x4000_0000_0000_0000_0000_0000_0000_0000 <= r as int
            <= 0x4000_0000_0000_0000_0000_0000_0000_0000,
{
    proof {
        lemma_i64_mul_in_i128(a as int, b as int);
    }
    (a as i128) * (b as i128)
}

/// Whether an `i128` value is within the `i64` range.
fn in_i64_range(x: i128) -> (r: bool)
    ensures
        r == in_i64(x as int),
{
    -0x8000_0000_0000_0000 <= x && x <= 0x7fff_ffff_ffff_ffff
}

impl Rat {
    /// The mathematical view: numerator and denominator as unbounded integers.
    pub open spec fn q(self) -> (int, int) {
        (self.num as int, self.den as int)
    }

    /// Well-formed: the denominator is positive.
    pub open spec fn wf(self) -> bool {
        self.den > 0
    }

    /// The rational `v / 1`.
    pub fn from_int(v: i64) -> (r: Rat)
        ensures
            r.wf(),
            r.num == v,
            r.den == 1,
    {
        Rat { num: v, den: 1 }
    }

    /// The rational `num / den`; the denominator must be positive.
    pub fn new(num: i64, den: i64) -> (r: Rat)
        requires
            den > 0,
        ensures
            r.wf(),
            r.num == num,
            r.den == den,
    {
        Rat { num, den }
    }

    /// Exact sum; `None` exactly when the result does not fit the
    /// machine representation.
    pub fn checked_plus(&self, other: &Rat) -> (r: Option<Rat>)
        requires
            self.wf(),
            other.wf(),
        ensures
            r matches Some(v) ==> v.wf() && v.q() == q_plus(self.q(), other.q()),
            r is Some <==> q_fits(q_plus(self.q(), other.q())),
    {
        let n = mul_i64_den(self.num, other.den) + mul_i64_den(other.num, self.den);
        let d = mul_i64(self.den, other.den);
        if in_i64_range(n) && in_i64_range(d) {
            proof {
                lemma_mul_pos(self.den as int, other.den as int);
            }
            Some(Rat { num: n as i64, den: d as i64 })
        } else {
            None
        }
    }

    /// Exact difference; `None` exactly when the result does not fit the
    /// machine representation.
    pub fn checked_minus(&self, other: &Rat) -> (r: Option<Rat>)
        requires
            self.wf(),
            other.wf(),
        ensures
            r matches Some(v) ==> v.wf() && v.q() == q_minus(self.q(), other.q()),
            r is Some <==> q_fits(q_minus(self.q(), other.q())),
    {
        let n = mul_i64_den(self.num, other.den) - mul_i64_den(other.num, self.den);
        let d = mul_i64(self.den, other.den);
        if in_i64_range(n) && in_i64_range(d) {
            proof {
                lemma_mul_pos(self.den as int, other.den as int);
            }
            Some(Rat { num: n as i64, den: d as i64 })
        } else {
            None
        }
    }

    /// Exact product; `None` exactly when the result does not fit the
    /// machine representation.
    pub fn checked_times(&self, other: &Rat) -> (r: Option<Rat>)
        requires
            self.wf(),
            other.wf(),
        ensures
            r matches Some(v) ==> v.wf() && v.q() == q_times(self.q(), other.q()),
            r is Some <==> q_fits(q_times(self.q(), other.q())),
    {
        let n = mul_i64(self.num, other.num);
        let d = mul_i64(self.den, other.den);
        if in_i64_range(n) && in_i64_range(d) {
            proof {
                lemma_mul_pos(self.den as int, other.den as int);
            }
            Some(Rat { num: n as i64, den: d as i64 })
        } else {
            None
        }
    }

    /// Exact quotient; `None` exactly when the divisor is zero or the result
    /// does not fit the machine representation.
    pub fn checked_div(&self, other: &Rat) -> (r: Option<Rat>)
        requires
            self.wf(),
            other.wf(),
        ensures
            r matches Some(v) ==> v.wf() && v.q() == q_div(self.q(), other.q()),
            r is Some <==> other.q().0 != 0 && q_fits(q_div(self.q(), other.q())),
    {
        if other.num == 0 {
            return None;
        }
        let n0 = mul_i64(self.num, other.den);
        let d0 = mul_i64(self.den, other.num);
        let n: i128 = if other.num < 0 { -n0 } else { n0 };
        let d: i128 = if other.num < 0 { -d0 } else { d0 };
        if in_i64_range(n) && in_i64_range(d) {
            proof {
                if other.num < 0 {
                    lemma_mul_pos_neg(self.den as int, other.num as int);
                } else {
                    lemma_mul_pos(self.den as int, other.num as int);
                }
            }
            Some(Rat { num: n as i64, den: d as i64 })
        } else {
            None
        }
    }

    /// Exact comparison `self <= other`.
    pub fn le(&self, other: &Rat) -> (r: bool)
        requires
            self.wf(),
            other.wf(),
        ensures
            r == q_le(self.q(), other.q()),
    {
        mul_i64(self.num, other.den) <= mul_i64(other.num, self.den)
    }

    /// Exact comparison `self < other`.
    pub fn lt(&self, other: &Rat) -> (r: bool)
        requires
            self.wf(),
            other.wf(),
        ensures
            r == q_lt(self.q(), other.q()),
    {
        mul_i64(self.num, other.den) < mul_i64(other.num, self.den)
    }

    /// Exact value equality (independent of the chosen representatives).
    pub fn eqv(&self, other: &Rat) -> (r: bool)
        requires
            self.wf(),
            other.wf(),
        ensures
            r == q_eq(self.q(), other.q()),
    {
        mul_i64(self.num, other.den) == mul_i64(other.num, self.den)
    }

    /// The larger of the two values; on a tie the receiver is returned.
    pub fn max_of(&self, other: &Rat) -> (r: Rat)
        requires
            self.wf(),
            other.wf(),
        ensures
            r.wf(),
            r == (if q_lt(self.q(), other.q()) {
                *other
            } else {
                *self
            }),
    {
        if self.lt(other) {
            *other
        } else {
            *self
        }
    }
}

} // verus!
