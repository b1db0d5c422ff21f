//! The exact layer of the pricing engine.
//!
//! Under the lognormal model the terminal log-spot is Gaussian with
//! mean `ln(spot) + drift + ito_correction` and variance `variance`,
//! where `variance` is the integrated squared volatility, `drift` the
//! integrated short rate, and `ito_correction = -variance / 2`.  Those
//! three quantities are exact rational functions of the product and the
//! parameters, and [`log_spot_terms`] computes them with an exact
//! contract.  The remaining engine steps are transcendental (square
//! root, exponential, a Gaussian draw per path) and are left to the
//! caller, who hands the sampled terminal spots back to [`run_paths`]
//! (or one at a time to [`record_path`]): the product's flow is applied
//! to each spot, discounted, and fed to the collector, all exactly.

use vstd::prelude::*;
use crate::parameters::Parameter;
use crate::payoffs::Payoff;
use crate::products::VanillaOption;
use crate::rational::{Rat, Rational, add_fits, mul_fits, rat_mul, rat_views, rat_wf, rat_zero};
use crate::stats_collectors::{MonteCarloMeanCollector, MonteCarloStatsCollector, rat_sum};

verus! {

/// The rational `-1/2`, the factor of the Ito correction.
pub open spec fn rat_neg_half() -> Rat {
    Rat { num: -1, den: 2 }
}

/// The exact precomputation of the engine, hoisted out of the path
/// loop: the integrated squared volatility over `[0, expiry]`
/// (`variance`), the Ito correction `-variance / 2`, and the integrated
/// short rate over `[0, expiry]` (`drift`).
pub fn log_spot_terms<P: Payoff, V: Parameter, R: Parameter>(
    product: &VanillaOption<P>,
    vol: &V,
    rate: &R,
) -> (terms: (Rational, Rational, Rational))
    requires
        product.wf(),
        vol.wf(),
        rate.wf(),
        vol.integral_square_fits(rat_zero(), product.spec_expiry()),
        rate.integral_fits(rat_zero(), product.spec_expiry()),
        mul_fits(rat_neg_half(), vol.integral_square_of(rat_zero(), product.spec_expiry())),
    ensures
        terms.0.wf(),
        terms.1.wf(),
        terms.2.wf(),
        terms.0@ == vol.integral_square_of(rat_zero(), product.spec_expiry()),
        terms.1@ == rat_mul(rat_neg_half(), terms.0@),
        terms.2@ == rate.integral_of(rat_zero(), product.spec_expiry()),
{
    let expiry = product.expiry();
    let zero = Rational::zero();
    let variance = vol.integral_square(&zero, &expiry);
    let neg_half = Rational::new(-1, 2);
    let ito_correction = neg_half.mul(&variance);
    let drift = rate.integral(&zero, &expiry);
    (variance, ito_correction, drift)
}

/// One path of the engine loop: the product's cash flow at the sampled
/// terminal spot, discounted and fed to the collector.
pub fn record_path<P: Payoff, C: MonteCarloStatsCollector>(
    product: &VanillaOption<P>,
    discount: &Rational,
    terminal_spot: &Rational,
    collector: &mut C,
) -> (discounted: Rational)
    requires
        product.wf(),
        discount.wf(),
        terminal_spot.wf(),
        product.spec_payoff().apply_fits(terminal_spot@),
        mul_fits(discount@, product.spec_payoff().payoff_of(terminal_spot@)),
        old(collector).wf(),
        old(collector).can_accumulate(
            rat_mul(discount@, product.spec_payoff().payoff_of(terminal_spot@)),
        ),
    ensures
        discounted.wf(),
        discounted@ == rat_mul(discount@, product.spec_payoff().payoff_of(terminal_spot@)),
        final(collector).wf(),
        final(collector).collected() == old(collector).collected().push(
            rat_mul(discount@, product.spec_payoff().payoff_of(terminal_spot@)),
        ),
{
    let flow = product.flow(terminal_spot);
    let discounted = discount.mul(&flow);
    collector.accumulate_result(discounted);
    discounted
}

/// The discounted cash flows of a payoff over a sequence of terminal
/// spots: one `discount * payoff(spot)` per spot, in path order.
pub open spec fn discounted_flows<P: Payoff>(payoff: P, discount: Rat, spots: Seq<Rat>) -> Seq<
    Rat,
> {
    spots.map(|i: int, s: Rat| rat_mul(discount, payoff.payoff_of(s)))
}

/// Machine-range side condition for path `i` of [`run_paths`]: the
/// spot is well formed, the flow and its discounting can be evaluated
/// exactly, and the running sum that a mean collector started from the
/// results `base` has reached after the first `i` paths can take the
/// next discounted flow.
pub open spec fn path_fits<P: Payoff>(
    payoff: P,
    discount: Rat,
    spots: Seq<Rat>,
    base: Seq<Rat>,
    i: int,
) -> bool {
    &&& rat_wf(spots[i])
    &&& payoff.apply_fits(spots[i])
    &&& mul_fits(discount, payoff.payoff_of(spots[i]))
    &&& add_fits(
        rat_sum(base + discounted_flows(payoff, discount, spots).take(i)),
        discounted_flows(payoff, discount, spots)[i],
    )
    &&& base.len() + i < usize::MAX
}

/// The path loop of the engine, over terminal spots sampled by the
/// caller: every spot in turn has the product's flow applied,
/// discounted, and fed to the mean collector.
pub fn run_paths<P: Payoff>(
    product: &VanillaOption<P>,
    discount: &Rational,
    terminal_spots: &Vec<Rational>,
    collector: &mut MonteCarloMeanCollector,
) -> (paths_run: usize)
    requires
        product.wf(),
        discount.wf(),
        old(collector).wf(),
        forall|i: int|
            0 <= i < terminal_spots@.len() ==> #[trigger] path_fits(
                product.spec_payoff(),
                discount@,
                rat_views(terminal_spots@),
                old(collector).collected(),
                i,
            ),
    ensures
        paths_run == terminal_spots@.len(),
        final(collector).wf(),
        final(collector).collected() == old(collector).collected() + discounted_flows(
            product.spec_payoff(),
            discount@,
            rat_views(terminal_spots@),
        ),
{
    let ghost spots = rat_views(terminal_spots@);
    let ghost base = old(collector).collected();
    let ghost flows = discounted_flows(product.spec_payoff(), discount@, spots);
    let n = terminal_spots.len();
    let mut idx: usize = 0;
    proof {
        assert(base + flows.take(0) =~= base);
    }
    while idx < n
        invariant
            product.wf(),
            discount.wf(),
            collector.wf(),
            n == terminal_spots@.len(),
            0 <= idx <= n,
            spots == rat_views(terminal_spots@),
            flows == discounted_flows(product.spec_payoff(), discount@, spots),
            collector.collected() == base + flows.take(idx as int),
            forall|i: int|
                0 <= i < terminal_spots@.len() ==> #[trigger] path_fits(
                    product.spec_payoff(),
                    discount@,
                    spots,
                    base,
                    i,
                ),
        decreases n - idx,
    {
        proof {
            assert(path_fits(product.spec_payoff(), discount@, spots, base, idx as int));
            assert(spots[idx as int] == terminal_spots@[idx as int]@);
            assert(flows[idx as int] == rat_mul(
                discount@,
                product.spec_payoff().payoff_of(spots[idx as int]),
            ));
        }
        record_path(product, discount, &terminal_spots[idx], collector);
        proof {
            assert((base + flows.take(idx as int)).push(flows[idx as int]) =~= base + flows.take(
                idx as int + 1,
            ));
        }
        idx = idx + 1;
    }
    proof {
        assert(flows.take(n as int) =~= flows);
    }
    idx
}

} // verus!
