use vstd::prelude::*;

verus! {

/// An exact rational amount `num / den` with a positive denominator.
///
/// Values are not kept in lowest terms; numeric comparison goes by
/// cross-multiplication, so `10/2` and `5/1` denote the same amount.
#[derive(Clone, Copy, PartialEq, Eq, Structural, Debug)]
pub struct Rational {
    pub num: i64,
    pub den: i64,
}

impl View for Rational {
    type V = (int, int);

    open spec fn view(&self) -> (int, int) {
        (self.num as int, self.den as int)
    }
}

/// Whether a mathematical integer fits in an `i64`.
pub open spec fn in_i64(x: int) -> bool {
    i64::MIN <= x <= i64::MAX
}

/// Numeric equality of two rationals given as (numerator, denominator) pairs.
pub open spec fn rat_eq(a: (int, int), b: (int, int)) -> bool {
    a.0 * b.1 == b.0 * a.1
}

/// Exact sum of two rationals, without normalization.
pub open spec fn rat_add(a: (int, int), b: (int, int)) -> (int, int) {
    (a.0 * b.1 + b.0 * a.1, a.1 * b.1)
}

/// Exact product of two rationals, without normalization.
pub open spec fn rat_mul(a: (int, int), b: (int, int)) -> (int, int) {
    (a.0 * b.0, a.1 * b.1)
}

/// Exact quotient of two rationals, without normalization.
pub open spec fn rat_div(a: (int, int), b: (int, int)) -> (int, int) {
    (a.0 * b.1, a.1 * b.0)
}

/// A product of two `i64` values stays well inside the `i128` range.
pub(crate) proof fn lemma_i64_mul_fits(a: int, b: int)
    by (nonlinear_arith)
    requires
        -0x8000_0000_0000_0000 <= a <= 0x7fff_ffff_ffff_ffff,
        -0x8000_0000_0000_0000 <= b <= 0x7fff_ffff_ffff_ffff,
    ensures
        -0x4000_0000_0000_0000_0000_0000_0000_0000 <= a * b
            <= 0x4000_0000_0000_0000_0000_0000_0000_0000,
{
}

/// A product of an `i64` with a positive `i64` is small enough that the sum
/// of two such products still fits in an `i128`.
pub(crate) proof fn lemma_i64_mul_den_fits(a: int, d: int)
    by (nonlinear_arith)
    requires
        -0x8000_0000_0000_0000 <= a <= 0x7fff_ffff_ffff_ffff,
        1 <= d <= 0x7fff_ffff_ffff_ffff,
    ensures
        -0x3fff_ffff_ffff_ffff_8000_0000_0000_0000 <= a * d
            <= 0x3fff_ffff_ffff_ffff_8000_0000_0000_0000,
{
}

/// A product of two positive integers is positive.
pub(crate) proof fn lemma_mul_pos(a: int, b: int)
    by (nonlinear_arith)
    requires
        a > 0,
        b > 0,
    ensures
        a * b > 0,
{
}

impl Rational {
    /// The denominator is positive.
    pub open spec fn wf(self) -> bool {
        self.den > 0
    }

    /// Builds the rational `num / den`.
    pub fn new(num: i64, den: i64) -> (r: Rational)
        requires
            den > 0,
        ensures
            r.num == num,
            r.den == den,
            r.wf(),
    {
        Rational { num, den }
    }

    /// Builds the whole number `n`.
    pub fn from_int(n: i64) -> (r: Rational)
        ensures
            r.num == n,
            r.den == 1,
            r.wf(),
    {
        Rational { num: n, den: 1 }
    }

    /// Numeric equality: `a/b == c/d` iff `a*d == c*b`.
    pub fn equals(&self, other: &Rational) -> (r: bool)
        ensures
            r == rat_eq(self@, other@),
    {
        proof {
            lemma_i64_mul_fits(self.num as int, other.den as int);
            lemma_i64_mul_fits(other.num as int, self.den as int);
        }
        (self.num as i128) * (other.den as i128) == (other.num as i128) * (self.den as i128)
    }

    /// Exact sum, or `None` when the result leaves the `i64` range.
    pub fn checked_add(&self, other: &Rational) -> (r: Option<Rational>)
        requires
            self.wf(),
            other.wf(),
        ensures
            match r {
                Some(v) => {
                    &&& v@ == rat_add(self@, other@)
                    &&& v.wf()
                    &&& in_i64(rat_add(self@, other@).0)
                    &&& in_i64(rat_add(self@, other@).1)
                },
                None => !(in_i64(rat_add(self@, other@).0) && in_i64(rat_add(self@, other@).1)),
            },
    {
        proof {
            lemma_i64_mul_den_fits(self.num as int, other.den as int);
            lemma_i64_mul_den_fits(other.num as int, self.den as int);
            lemma_i64_mul_fits(self.den as int, other.den as int);
            lemma_mul_pos(self.den as int, other.den as int);
        }
        let n: i128 = (self.num as i128) * (other.den as i128)
            + (other.num as i128) * (self.den as i128);
        let d: i128 = (self.den as i128) * (other.den as i128);
        if n >= (i64::MIN as i128) && n <= (i64::MAX as i128) && d <= (i64::MAX as i128) {
            Some(Rational { num: n as i64, den: d as i64 })
        } else {
            None
        }
    }

    /// Exact product, or `None` when the result leaves the `i64` range.
    pub fn checked_mul(&self, other: &Rational) -> (r: Option<Rational>)
        requires
            self.wf(),
            other.wf(),
        ensures
            match r {
                Some(v) => {
                    &&& v@ == rat_mul(self@, other@)
                    &&& v.wf()
                    &&& in_i64(rat_mul(self@, other@).0)
                    &&& in_i64(rat_mul(self@, other@).1)
                },
                None => !(in_i64(rat_mul(self@, other@).0) && in_i64(rat_mul(self@, other@).1)),
            },
    {
        proof {
            lemma_i64_mul_fits(self.num as int, other.num as int);
            lemma_i64_mul_fits(self.den as int, other.den as int);
            lemma_mul_pos(self.den as int, other.den as int);
        }
        let n: i128 = (self.num as i128) * (other.num as i128);
        let d: i128 = (self.den as i128) * (other.den as i128);
        if n >= (i64::MIN as i128) && n <= (i64::MAX as i128) && d <= (i64::MAX as i128) {
            Some(Rational { num: n as i64, den: d as i64 })
        } else {
            None
        }
    }

    /// Exact quotient by a rational with a positive numerator, or `None`
    /// when the result leaves the `i64` range.
    pub fn checked_div(&self, other: &Rational) -> (r: Option<Rational>)
        requires
            self.wf(),
            other.wf(),
            other.num > 0,
        ensures
            match r {
                Some(v) => {
                    &&& v@ == rat_div(self@, other@)
                    &&& v.wf()
                    &&& in_i64(rat_div(self@, other@).0)
                    &&& in_i64(rat_div(self@, other@).1)
                },
                None => !(in_i64(rat_div(self@, other@).0) && in_i64(rat_div(self@, other@).1)),
            },
    {
        proof {
            lemma_i64_mul_fits(self.num as int, other.den as int);
            lemma_i64_mul_fits(self.den as int, other.num as int);
            lemma_mul_pos(self.den as int, other.num as int);
        }
        let n: i128 = (self.num as i128) * (other.den as i128);
        let d: i128 = (self.den as i128) * (other.num as i128);
        if n >= (i64::MIN as i128) && n <= (i64::MAX as i128) && d <= (i64::MAX as i128) {
            Some(Rational { num: n as i64, den: d as i64 })
        } else {
            None
        }
    }
}

} // verus!
