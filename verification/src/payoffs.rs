//! Payoffs: mappings from a terminal spot price to a cash flow.

use vstd::prelude::*;
use crate::rational::{
    Rat, Rational, rat_eq, rat_le, rat_lt, rat_sub, rat_wf, rat_zero, sub_fits,
};

verus! {

/// A payoff applied to the spot value of the underlying.
///
/// A payoff is a pure function of the spot; for the supported variants
/// the cash flow is always nonnegative, and the trait contract says so.
pub trait Payoff: Sized {
    /// The variant's internal invariant.
    spec fn wf(&self) -> bool;

    /// The cash flow at spot `spot`, as a mathematical rational.
    spec fn payoff_of(&self, spot: Rat) -> Rat;

    /// Machine-range side condition under which `apply` can evaluate
    /// the cash flow at `spot` exactly.
    spec fn apply_fits(&self, spot: Rat) -> bool;

    /// Applies the payoff to the spot value of the underlying.
    fn apply(&self, spot: &Rational) -> (flow: Rational)
        requires
            self.wf(),
            spot.wf(),
            self.apply_fits(spot@),
        ensures
            flow.wf(),
            flow@ == self.payoff_of(spot@),
            rat_le(rat_zero(), flow@),
    ;
}

/// Cash flow of a call struck at `strike`: `max(spot - strike, 0)`.
pub open spec fn call_payoff_of(strike: Rat, spot: Rat) -> Rat {
    if rat_lt(rat_zero(), rat_sub(spot, strike)) {
        rat_sub(spot, strike)
    } else {
        rat_zero()
    }
}

/// The payoff of a call option: `max(spot - strike, 0)`.
#[derive(Clone, Copy, Debug)]
pub struct CallPayoff {
    strike: Rational,
}

impl CallPayoff {
    /// The strike the payoff was built with.
    pub closed spec fn spec_strike(&self) -> Rat {
        self.strike@
    }

    /// A call payoff with the given (nonnegative) strike.
    pub fn new(strike: Rational) -> (p: CallPayoff)
        requires
            strike.wf(),
            rat_le(rat_zero(), strike@),
        ensures
            p.wf(),
            p.spec_strike() == strike@,
    {
        CallPayoff { strike }
    }
}

impl Payoff for CallPayoff {
    open spec fn wf(&self) -> bool {
        rat_wf(self.spec_strike()) && rat_le(rat_zero(), self.spec_strike())
    }

    open spec fn payoff_of(&self, spot: Rat) -> Rat {
        call_payoff_of(self.spec_strike(), spot)
    }

    open spec fn apply_fits(&self, spot: Rat) -> bool {
        sub_fits(spot, self.spec_strike())
    }

    fn apply(&self, spot: &Rational) -> (flow: Rational) {
        let intrinsic = spot.sub(&self.strike);
        if intrinsic.is_pos() {
            intrinsic
        } else {
            Rational::zero()
        }
    }
}

/// Law: a call payoff is never negative, and it is exactly zero at or
/// below the strike.
pub proof fn lemma_call_payoff_nonnegative(strike: Rat, spot: Rat)
    requires
        rat_wf(strike),
        rat_wf(spot),
    ensures
        rat_le(rat_zero(), call_payoff_of(strike, spot)),
        rat_le(spot, strike) ==> rat_eq(call_payoff_of(strike, spot), rat_zero()),
{
}

/// Law: at or above the strike, a call payoff is linear in the spot:
/// it equals `spot - strike` exactly.
pub proof fn lemma_call_payoff_linear_above_strike(strike: Rat, spot: Rat)
    requires
        rat_wf(strike),
        rat_wf(spot),
        rat_le(strike, spot),
    ensures
        rat_eq(call_payoff_of(strike, spot), rat_sub(spot, strike)),
{
}

} // verus!
