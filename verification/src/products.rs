//! Products: a payoff bundled with an expiry.

use vstd::prelude::*;
use crate::payoffs::Payoff;
use crate::rational::{Rat, Rational, rat_le, rat_lt, rat_wf, rat_zero};

verus! {

/// A vanilla option: it owns its payoff and carries a positive expiry,
/// immutable after construction.  Its terminal cash flow at a given
/// spot is the payoff applied to that spot.
pub struct VanillaOption<P: Payoff> {
    payoff: P,
    expiry: Rational,
}

impl<P: Payoff> VanillaOption<P> {
    /// The payoff the product owns.
    pub closed spec fn spec_payoff(&self) -> P {
        self.payoff
    }

    /// The expiry the product was built with.
    pub closed spec fn spec_expiry(&self) -> Rat {
        self.expiry@
    }

    /// The product's internal invariant: the payoff is well formed and
    /// the expiry is a positive rational.
    pub open spec fn wf(&self) -> bool {
        &&& self.spec_payoff().wf()
        &&& rat_wf(self.spec_expiry())
        &&& rat_lt(rat_zero(), self.spec_expiry())
    }

    /// A vanilla option over the given payoff, expiring at `expiry`.
    pub fn new(payoff: P, expiry: Rational) -> (product: VanillaOption<P>)
        requires
            payoff.wf(),
            expiry.wf(),
            rat_lt(rat_zero(), expiry@),
        ensures
            product.wf(),
            product.spec_payoff() == payoff,
            product.spec_expiry() == expiry@,
    {
        VanillaOption { payoff, expiry }
    }

    /// The stored expiry.
    pub fn expiry(&self) -> (r: Rational)
        requires
            self.wf(),
        ensures
            r.wf(),
            r@ == self.spec_expiry(),
    {
        self.expiry
    }

    /// The undiscounted cash flow at expiry given the terminal spot:
    /// the owned payoff applied to `spot`.  Like every supported
    /// payoff, it is nonnegative.
    pub fn flow(&self, spot: &Rational) -> (r: Rational)
        requires
            self.wf(),
            spot.wf(),
            self.spec_payoff().apply_fits(spot@),
        ensures
            r.wf(),
            r@ == self.spec_payoff().payoff_of(spot@),
            rat_le(rat_zero(), r@),
    {
        self.payoff.apply(spot)
    }
}

} // verus!
