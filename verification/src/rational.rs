//! Exact rational numbers.
//!
//! Every scalar the pricer core manipulates (spots, strikes, times,
//! integrals, statistics) is an exact fraction.  The mathematical model
//! is `Rat`, a pair of unbounded integers with a positive denominator;
//! the executable type `Rational` carries the same pair in `i128`
//! fields.  Operations are exact: each returns the textbook fraction of
//! its operands, and the `*_fits` predicates state the machine-range
//! side conditions under which the products involved stay in `i128`.

use vstd::prelude::*;

verus! {

/// Mathematical value of a rational: a fraction `num / den`.
/// Well-formed values have `den > 0`; equality of values is equality of
/// the fractions, not of the pairs (see [`rat_eq`]).
pub ghost struct Rat {
    pub num: int,
    pub den: int,
}

/// A well-formed rational has a positive denominator.
pub open spec fn rat_wf(a: Rat) -> bool {
    a.den > 0
}

/// The rational zero.
pub open spec fn rat_zero() -> Rat {
    Rat { num: 0, den: 1 }
}

/// The rational with integer value `n`.
pub open spec fn rat_of_int(n: int) -> Rat {
    Rat { num: n, den: 1 }
}

/// Equality of rational values, by cross-multiplication.
pub open spec fn rat_eq(a: Rat, b: Rat) -> bool {
    a.num * b.den == b.num * a.den
}

/// `a <= b` as rational values (for well-formed operands).
pub open spec fn rat_le(a: Rat, b: Rat) -> bool {
    a.num * b.den <= b.num * a.den
}

/// `a < b` as rational values (for well-formed operands).
pub open spec fn rat_lt(a: Rat, b: Rat) -> bool {
    a.num * b.den < b.num * a.den
}

/// Exact sum of two fractions.
pub open spec fn rat_add(a: Rat, b: Rat) -> Rat {
    Rat { num: a.num * b.den + b.num * a.den, den: a.den * b.den }
}

/// Exact difference of two fractions.
pub open spec fn rat_sub(a: Rat, b: Rat) -> Rat {
    Rat { num: a.num * b.den - b.num * a.den, den: a.den * b.den }
}

/// Exact product of two fractions.
pub open spec fn rat_mul(a: Rat, b: Rat) -> Rat {
    Rat { num: a.num * b.num, den: a.den * b.den }
}

/// Exact quotient of two fractions; intended for a positive divisor,
/// which keeps the denominator positive.
pub open spec fn rat_div(a: Rat, b: Rat) -> Rat {
    Rat { num: a.num * b.den, den: a.den * b.num }
}

/// `x` lies in the range of `i128`.
pub open spec fn in_i128(x: int) -> bool {
    i128::MIN <= x <= i128::MAX
}

/// The products and the sum formed by `rat_add(a, b)` stay in `i128`.
pub open spec fn add_fits(a: Rat, b: Rat) -> bool {
    &&& in_i128(a.num * b.den)
    &&& in_i128(b.num * a.den)
    &&& in_i128(a.num * b.den + b.num * a.den)
    &&& in_i128(a.den * b.den)
}

/// The products and the difference formed by `rat_sub(a, b)` stay in `i128`.
pub open spec fn sub_fits(a: Rat, b: Rat) -> bool {
    &&& in_i128(a.num * b.den)
    &&& in_i128(b.num * a.den)
    &&& in_i128(a.num * b.den - b.num * a.den)
    &&& in_i128(a.den * b.den)
}

/// The products formed by `rat_mul(a, b)` stay in `i128`.
pub open spec fn mul_fits(a: Rat, b: Rat) -> bool {
    &&& in_i128(a.num * b.num)
    &&& in_i128(a.den * b.den)
}

/// The products formed by `rat_div(a, b)` stay in `i128`.
pub open spec fn div_fits(a: Rat, b: Rat) -> bool {
    &&& in_i128(a.num * b.den)
    &&& in_i128(a.den * b.num)
}

/// The cross products compared by `rat_eq`/`rat_le`/`rat_lt` stay in `i128`.
pub open spec fn cmp_fits(a: Rat, b: Rat) -> bool {
    &&& in_i128(a.num * b.den)
    &&& in_i128(b.num * a.den)
}

/// The mathematical values of a sequence of rationals, element by
/// element.
pub open spec fn rat_views(v: Seq<Rational>) -> Seq<Rat> {
    v.map_values(|r: Rational| r@)
}

/// An exact rational scalar: numerator and denominator in `i128`, with
/// the denominator kept positive.
#[derive(Clone, Copy, Debug)]
pub struct Rational {
    num: i128,
    den: i128,
}

impl View for Rational {
    type V = Rat;

    closed spec fn view(&self) -> Rat {
        Rat { num: self.num as int, den: self.den as int }
    }
}

impl Rational {
    /// The denominator is positive.
    pub open spec fn wf(&self) -> bool {
        rat_wf(self@)
    }

    /// The fraction `num / den`.
    pub fn new(num: i64, den: i64) -> (r: Rational)
        requires
            den > 0,
        ensures
            r.wf(),
            r@ == (Rat { num: num as int, den: den as int }),
    {
        Rational { num: num as i128, den: den as i128 }
    }

    /// The rational with integer value `n`.
    pub fn from_int(n: i64) -> (r: Rational)
        ensures
            r.wf(),
            r@ == rat_of_int(n as int),
    {
        Rational { num: n as i128, den: 1 }
    }

    /// The rational with integer value `n`.
    pub fn from_usize(n: usize) -> (r: Rational)
        ensures
            r.wf(),
            r@ == rat_of_int(n as int),
    {
        Rational { num: n as i128, den: 1 }
    }

    /// The rational zero.
    pub fn zero() -> (r: Rational)
        ensures
            r.wf(),
            r@ == rat_zero(),
    {
        Rational { num: 0, den: 1 }
    }

    /// Exact sum.
    pub fn add(&self, other: &Rational) -> (r: Rational)
        requires
            self.wf(),
            other.wf(),
            add_fits(self@, other@),
        ensures
            r.wf(),
            r@ == rat_add(self@, other@),
    {
        proof {
            assert(self.den as int * other.den as int > 0) by (nonlinear_arith)
                requires
                    self.den > 0,
                    other.den > 0,
            ;
        }
        Rational {
            num: self.num * other.den + other.num * self.den,
            den: self.den * other.den,
        }
    }

    /// Exact difference.
    pub fn sub(&self, other: &Rational) -> (r: Rational)
        requires
            self.wf(),
            other.wf(),
            sub_fits(self@, other@),
        ensures
            r.wf(),
            r@ == rat_sub(self@, other@),
    {
        proof {
            assert(self.den as int * other.den as int > 0) by (nonlinear_arith)
                requires
                    self.den > 0,
                    other.den > 0,
            ;
        }
        Rational {
            num: self.num * other.den - other.num * self.den,
            den: self.den * other.den,
        }
    }

    /// Exact product.
    pub fn mul(&self, other: &Rational) -> (r: Rational)
        requires
            self.wf(),
            other.wf(),
            mul_fits(self@, other@),
        ensures
            r.wf(),
            r@ == rat_mul(self@, other@),
    {
        proof {
            assert(self.den as int * other.den as int > 0) by (nonlinear_arith)
                requires
                    self.den > 0,
                    other.den > 0,
            ;
        }
        Rational { num: self.num * other.num, den: self.den * other.den }
    }

    /// Exact quotient by a positive divisor.
    pub fn div(&self, other: &Rational) -> (r: Rational)
        requires
            self.wf(),
            other.wf(),
            rat_lt(rat_zero(), other@),
            div_fits(self@, other@),
        ensures
            r.wf(),
            r@ == rat_div(self@, other@),
    {
        proof {
            assert(self.den as int * other.num as int > 0) by (nonlinear_arith)
                requires
                    self.den > 0,
                    other.num > 0,
            ;
        }
        Rational { num: self.num * other.den, den: self.den * other.num }
    }

    /// Whether the two fractions denote the same rational value.
    pub fn equals(&self, other: &Rational) -> (b: bool)
        requires
            self.wf(),
            other.wf(),
            cmp_fits(self@, other@),
        ensures
            b == rat_eq(self@, other@),
    {
        self.num * other.den == other.num * self.den
    }

    /// Whether `self <= other` as rational values.
    pub fn le(&self, other: &Rational) -> (b: bool)
        requires
            self.wf(),
            other.wf(),
            cmp_fits(self@, other@),
        ensures
            b == rat_le(self@, other@),
    {
        self.num * other.den <= other.num * self.den
    }

    /// Whether the value is strictly positive.
    pub fn is_pos(&self) -> (b: bool)
        requires
            self.wf(),
        ensures
            b == rat_lt(rat_zero(), self@),
    {
        self.num > 0
    }

    /// Whether the value is nonnegative.
    pub fn is_nonneg(&self) -> (b: bool)
        requires
            self.wf(),
        ensures
            b == rat_le(rat_zero(), self@),
    {
        self.num >= 0
    }
}

} // verus!
