//! Time-dependent scalar parameters (volatility, short rate).
//!
//! The engine never asks a parameter for a pointwise value: it only
//! consumes integrals over an interval, which keeps the interface
//! compatible with any integrable deterministic parameter curve.

use vstd::prelude::*;
use crate::rational::{
    Rat, Rational, div_fits, mul_fits, rat_div, rat_eq, rat_le, rat_lt, rat_mul, rat_sub,
    rat_wf, rat_zero, sub_fits,
};

verus! {

/// A time-dependent nonnegative scalar, consumed through its integral
/// summaries over an interval `[t1, t2]`.
pub trait Parameter: Sized {
    /// The variant's internal invariant.
    spec fn wf(&self) -> bool;

    /// The integral of the parameter over `[t1, t2]`.
    spec fn integral_of(&self, t1: Rat, t2: Rat) -> Rat;

    /// The integral of the square of the parameter over `[t1, t2]`.
    spec fn integral_square_of(&self, t1: Rat, t2: Rat) -> Rat;

    /// Machine-range side condition for evaluating `integral` exactly.
    spec fn integral_fits(&self, t1: Rat, t2: Rat) -> bool;

    /// Machine-range side condition for evaluating `integral_square`
    /// exactly.
    spec fn integral_square_fits(&self, t1: Rat, t2: Rat) -> bool;

    /// The integral of the parameter over `[t1, t2]`.
    fn integral(&self, t1: &Rational, t2: &Rational) -> (r: Rational)
        requires
            self.wf(),
            t1.wf(),
            t2.wf(),
            rat_le(t1@, t2@),
            self.integral_fits(t1@, t2@),
        ensures
            r.wf(),
            r@ == self.integral_of(t1@, t2@),
    ;

    /// The integral of the square of the parameter over `[t1, t2]`.
    fn integral_square(&self, t1: &Rational, t2: &Rational) -> (r: Rational)
        requires
            self.wf(),
            t1.wf(),
            t2.wf(),
            rat_le(t1@, t2@),
            self.integral_square_fits(t1@, t2@),
        ensures
            r.wf(),
            r@ == self.integral_square_of(t1@, t2@),
    ;

    /// The mean value of the parameter over `[t1, t2]`: the integral
    /// divided by the width of the interval.  The interval must not be
    /// empty.
    fn mean(&self, t1: &Rational, t2: &Rational) -> (r: Rational)
        requires
            self.wf(),
            t1.wf(),
            t2.wf(),
            rat_lt(t1@, t2@),
            self.integral_fits(t1@, t2@),
            sub_fits(t2@, t1@),
            div_fits(self.integral_of(t1@, t2@), rat_sub(t2@, t1@)),
        ensures
            r.wf(),
            r@ == rat_div(self.integral_of(t1@, t2@), rat_sub(t2@, t1@)),
    ;

    /// The mean of the square of the parameter over `[t1, t2]`.
    ///
    /// Despite the name, no square root is taken: the result is the
    /// mean square, `integral_square(t1, t2) / (t2 - t1)`.  The name is
    /// kept for compatibility; callers who want a root-mean-square must
    /// take the square root themselves.
    fn root_mean_square(&self, t1: &Rational, t2: &Rational) -> (r: Rational)
        requires
            self.wf(),
            t1.wf(),
            t2.wf(),
            rat_lt(t1@, t2@),
            self.integral_square_fits(t1@, t2@),
            sub_fits(t2@, t1@),
            div_fits(self.integral_square_of(t1@, t2@), rat_sub(t2@, t1@)),
        ensures
            r.wf(),
            r@ == rat_div(self.integral_square_of(t1@, t2@), rat_sub(t2@, t1@)),
    ;
}

/// Integral over `[t1, t2]` of the constant curve `c`: `c * (t2 - t1)`.
pub open spec fn constant_integral_of(c: Rat, t1: Rat, t2: Rat) -> Rat {
    rat_mul(c, rat_sub(t2, t1))
}

/// Integral over `[t1, t2]` of the square of the constant curve `c`:
/// `c * c * (t2 - t1)`.
pub open spec fn constant_integral_square_of(c: Rat, t1: Rat, t2: Rat) -> Rat {
    rat_mul(rat_mul(c, c), rat_sub(t2, t1))
}

/// The constant parameter curve `f(t) = c`.
///
/// The square of the constant is cached at construction so that the
/// repeated `integral_square` requests of a pricing loop do not square
/// it again.
#[derive(Clone, Copy, Debug)]
pub struct ConstantParameter {
    constant: Rational,
    constant_squared: Rational,
}

impl ConstantParameter {
    /// The constant the parameter was built with.
    pub closed spec fn spec_constant(&self) -> Rat {
        self.constant@
    }

    /// The cached square of the constant.
    pub closed spec fn spec_constant_squared(&self) -> Rat {
        self.constant_squared@
    }

    /// A constant parameter with the given (nonnegative) value.
    pub fn new(constant: Rational) -> (p: ConstantParameter)
        requires
            constant.wf(),
            rat_le(rat_zero(), constant@),
            mul_fits(constant@, constant@),
        ensures
            p.wf(),
            p.spec_constant() == constant@,
    {
        let constant_squared = constant.mul(&constant);
        ConstantParameter { constant, constant_squared }
    }
}

impl Parameter for ConstantParameter {
    open spec fn wf(&self) -> bool {
        &&& rat_wf(self.spec_constant())
        &&& rat_le(rat_zero(), self.spec_constant())
        &&& rat_wf(self.spec_constant_squared())
        &&& self.spec_constant_squared() == rat_mul(self.spec_constant(), self.spec_constant())
    }

    open spec fn integral_of(&self, t1: Rat, t2: Rat) -> Rat {
        constant_integral_of(self.spec_constant(), t1, t2)
    }

    open spec fn integral_square_of(&self, t1: Rat, t2: Rat) -> Rat {
        constant_integral_square_of(self.spec_constant(), t1, t2)
    }

    open spec fn integral_fits(&self, t1: Rat, t2: Rat) -> bool {
        sub_fits(t2, t1) && mul_fits(self.spec_constant(), rat_sub(t2, t1))
    }

    open spec fn integral_square_fits(&self, t1: Rat, t2: Rat) -> bool {
        sub_fits(t2, t1) && mul_fits(
            rat_mul(self.spec_constant(), self.spec_constant()),
            rat_sub(t2, t1),
        )
    }

    fn integral(&self, t1: &Rational, t2: &Rational) -> (r: Rational) {
        let width = t2.sub(t1);
        self.constant.mul(&width)
    }

    fn integral_square(&self, t1: &Rational, t2: &Rational) -> (r: Rational) {
        let width = t2.sub(t1);
        self.constant_squared.mul(&width)
    }

    fn mean(&self, t1: &Rational, t2: &Rational) -> (r: Rational) {
        let width = t2.sub(t1);
        let total = self.integral(t1, t2);
        proof {
            lemma_width_positive(t1@, t2@);
        }
        total.div(&width)
    }

    fn root_mean_square(&self, t1: &Rational, t2: &Rational) -> (r: Rational) {
        let width = t2.sub(t1);
        let total = self.integral_square(t1, t2);
        proof {
            lemma_width_positive(t1@, t2@);
        }
        total.div(&width)
    }
}

/// The width `t2 - t1` of a nonempty interval is a positive rational.
proof fn lemma_width_positive(t1: Rat, t2: Rat)
    requires
        rat_wf(t1),
        rat_wf(t2),
        rat_lt(t1, t2),
    ensures
        rat_lt(rat_zero(), rat_sub(t2, t1)),
        rat_wf(rat_sub(t2, t1)),
{
    assert(t2.den * t1.den > 0) by (nonlinear_arith)
        requires
            t1.den > 0,
            t2.den > 0,
    ;
}

/// Law: for every constant `c` and interval `[t1, t2]`, the integral
/// summaries of the constant parameter are exactly `c * (t2 - t1)` and
/// `c * c * (t2 - t1)`, and an empty interval contributes nothing:
/// both integrals over `[t, t]` are zero.
pub proof fn lemma_constant_parameter_integrals(c: Rat, t1: Rat, t2: Rat, t: Rat)
    requires
        rat_wf(c),
        rat_wf(t1),
        rat_wf(t2),
        rat_wf(t),
    ensures
        rat_eq(constant_integral_of(c, t1, t2), rat_mul(c, rat_sub(t2, t1))),
        rat_eq(constant_integral_square_of(c, t1, t2), rat_mul(rat_mul(c, c), rat_sub(t2, t1))),
        rat_eq(constant_integral_of(c, t, t), rat_zero()),
        rat_eq(constant_integral_square_of(c, t, t), rat_zero()),
{
    let w = rat_sub(t, t);
    assert(w.num == 0);
    assert(rat_mul(c, w).num == c.num * 0);
    assert(c.num * 0 == 0) by (nonlinear_arith);
    assert((c.num * c.num) * 0 == 0) by (nonlinear_arith);
}

} // verus!
