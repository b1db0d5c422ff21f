//! Statistics collectors: sinks that accumulate one realized result per
//! path and report running summary statistics.

use vstd::prelude::*;
use crate::rational::{Rat, Rational, add_fits, div_fits, rat_add, rat_div, rat_of_int, rat_zero};

verus! {

/// The exact sum of a sequence of rationals.
pub open spec fn rat_sum(s: Seq<Rat>) -> Rat
    decreases s.len(),
{
    if s.len() == 0 {
        rat_zero()
    } else {
        rat_add(rat_sum(s.drop_last()), s.last())
    }
}

/// A sink for per-path results.
///
/// A collector sees a totally ordered stream of results, one
/// `accumulate_result` call per path, and can report a rectangular
/// table of running statistics at any time after the first result.
/// The shape and meaning of the table are variant-specific; each
/// variant fixes them through `stats_of`.
pub trait MonteCarloStatsCollector: Sized {
    /// The variant's internal invariant.
    spec fn wf(&self) -> bool;

    /// The results accumulated so far, oldest first.
    spec fn collected(&self) -> Seq<Rat>;

    /// Machine-range side condition under which one more result can be
    /// accumulated exactly.
    spec fn can_accumulate(&self, result: Rat) -> bool;

    /// Machine-range side condition under which the running statistics
    /// can be evaluated exactly.
    spec fn can_report(&self) -> bool;

    /// The running statistics implied by the results collected so far,
    /// as a rectangular table of rationals.
    spec fn stats_of(&self) -> Seq<Seq<Rat>>;

    /// Incorporates one realized discounted payoff.
    fn accumulate_result(&mut self, result: Rational)
        requires
            old(self).wf(),
            result.wf(),
            old(self).can_accumulate(result@),
        ensures
            final(self).wf(),
            final(self).collected() == old(self).collected().push(result@),
    ;

    /// Reports the running statistics accumulated so far.
    fn running_stats(&self) -> (stats: Vec<Vec<Rational>>)
        requires
            self.wf(),
            self.collected().len() > 0,
            self.can_report(),
        ensures
            stats@.len() == self.stats_of().len(),
            forall|i: int| 0 <= i < stats@.len() ==> stats@[i]@.len() == self.stats_of()[i].len(),
            forall|i: int, j: int|
                0 <= i < stats@.len() && 0 <= j < stats@[i]@.len() ==> {
                    &&& stats@[i]@[j].wf()
                    &&& stats@[i]@[j]@ == self.stats_of()[i][j]
                },
    ;
}

/// A collector that reports the running arithmetic mean of the results
/// as a 1x1 table.
pub struct MonteCarloMeanCollector {
    running_sum: Rational,
    paths_done: usize,
    history: Ghost<Seq<Rat>>,
}

impl MonteCarloMeanCollector {
    /// A collector with nothing accumulated yet.
    pub fn new() -> (c: MonteCarloMeanCollector)
        ensures
            c.wf(),
            c.collected() == Seq::<Rat>::empty(),
    {
        let c = MonteCarloMeanCollector {
            running_sum: Rational::zero(),
            paths_done: 0,
            history: Ghost(Seq::empty()),
        };
        proof {
            assert(c.history@.len() == 0);
        }
        c
    }
}

impl MonteCarloStatsCollector for MonteCarloMeanCollector {
    closed spec fn wf(&self) -> bool {
        &&& self.running_sum.wf()
        &&& self.running_sum@ == rat_sum(self.history@)
        &&& self.paths_done == self.history@.len()
    }

    closed spec fn collected(&self) -> Seq<Rat> {
        self.history@
    }

    open spec fn can_accumulate(&self, result: Rat) -> bool {
        &&& add_fits(rat_sum(self.collected()), result)
        &&& self.collected().len() < usize::MAX
    }

    open spec fn can_report(&self) -> bool {
        div_fits(rat_sum(self.collected()), rat_of_int(self.collected().len() as int))
    }

    open spec fn stats_of(&self) -> Seq<Seq<Rat>> {
        seq![seq![rat_div(rat_sum(self.collected()), rat_of_int(self.collected().len() as int))]]
    }

    fn accumulate_result(&mut self, result: Rational) {
        self.running_sum = self.running_sum.add(&result);
        self.paths_done = self.paths_done + 1;
        proof {
            let h = self.history@.push(result@);
            assert(h.drop_last() =~= old(self).history@);
        }
        self.history = Ghost(self.history@.push(result@));
    }

    fn running_stats(&self) -> (stats: Vec<Vec<Rational>>) {
        let count = Rational::from_usize(self.paths_done);
        let mean = self.running_sum.div(&count);
        let mut row: Vec<Rational> = Vec::new();
        row.push(mean);
        let mut stats: Vec<Vec<Rational>> = Vec::new();
        stats.push(row);
        proof {
            assert(stats@[0]@ =~= seq![mean]);
            assert(stats@.len() == self.stats_of().len());
        }
        stats
    }
}

/// Law: a mean collector that has seen the results `x1, ..., xn`
/// (n >= 1) reports a single statistic, the arithmetic mean
/// `(x1 + ... + xn) / n`.
pub proof fn lemma_mean_collector_consistency(c: MonteCarloMeanCollector)
    requires
        c.wf(),
        c.collected().len() > 0,
    ensures
        c.stats_of().len() == 1,
        c.stats_of()[0].len() == 1,
        c.stats_of()[0][0] == rat_div(
            rat_sum(c.collected()),
            rat_of_int(c.collected().len() as int),
        ),
{
}

} // verus!
