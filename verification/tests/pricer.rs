use derivatives_pricer::engine::{log_spot_terms, record_path, run_paths};
use derivatives_pricer::parameters::{ConstantParameter, Parameter};
use derivatives_pricer::payoffs::{CallPayoff, Payoff};
use derivatives_pricer::products::VanillaOption;
use derivatives_pricer::rational::Rational;
use derivatives_pricer::stats_collectors::{MonteCarloMeanCollector, MonteCarloStatsCollector};

#[test]
fn it_works() {
    assert_eq!(2 + 2, 4);
}

#[test]
fn constant_parameter_methods() {
    let param = ConstantParameter::new(Rational::from_int(10));
    let t1 = Rational::from_int(0);
    let t2 = Rational::from_int(2);
    assert!(param.integral(&t1, &t2).equals(&Rational::from_int(20)));
    assert!(param.integral_square(&t1, &t2).equals(&Rational::from_int(200)));
    assert!(param.mean(&t1, &t2).equals(&Rational::from_int(10)));
    assert!(param.root_mean_square(&t1, &t2).equals(&Rational::from_int(100)));
}

#[test]
fn call_payoff_ok() {
    let payoff = CallPayoff::new(Rational::from_int(50));

    let expected = Rational::from_int(50);
    let actual = payoff.apply(&Rational::from_int(100));

    assert!(
        actual.equals(&expected),
        "actual: {:?}, expected: {:?}",
        actual,
        expected
    );
}

#[test]
fn can_create_vanilla_option() {
    let payoff = CallPayoff::new(Rational::from_int(100));
    let option = VanillaOption::new(payoff, Rational::from_int(100));

    assert!(option.expiry().equals(&Rational::from_int(100)));
}

#[test]
fn mean_collector() {
    let mut mc_mean = MonteCarloMeanCollector::new();
    mc_mean.accumulate_result(Rational::from_int(2));
    mc_mean.accumulate_result(Rational::from_int(2));
    mc_mean.accumulate_result(Rational::from_int(2));
    let stats = mc_mean.running_stats();
    assert!(stats[0][0].equals(&Rational::from_int(2)));
}

#[test]
fn call_payoff_below_strike_is_zero() {
    let payoff = CallPayoff::new(Rational::from_int(50));
    assert!(payoff.apply(&Rational::from_int(30)).equals(&Rational::zero()));
}

#[test]
fn call_payoff_at_strike_is_zero() {
    let payoff = CallPayoff::new(Rational::from_int(50));
    assert!(payoff.apply(&Rational::from_int(50)).equals(&Rational::zero()));
}

#[test]
fn call_payoff_fractional_values() {
    // strike 1/2 at spot 3/4: the flow is exactly 1/4
    let payoff = CallPayoff::new(Rational::new(1, 2));
    let flow = payoff.apply(&Rational::new(3, 4));
    assert!(flow.equals(&Rational::new(1, 4)));
    assert!(flow.is_nonneg());
}

#[test]
fn rational_value_equality_ignores_representation() {
    let half = Rational::new(1, 2);
    let two_quarters = Rational::new(2, 4);
    assert!(half.equals(&two_quarters));
    assert!(!half.equals(&Rational::new(1, 3)));
    assert!(Rational::new(1, 3).le(&half));
    assert!(!half.le(&Rational::new(1, 3)));
}

#[test]
fn rational_arithmetic_is_exact() {
    let a = Rational::new(1, 3);
    let b = Rational::new(1, 6);
    assert!(a.add(&b).equals(&Rational::new(1, 2)));
    assert!(a.sub(&b).equals(&Rational::new(1, 6)));
    assert!(a.mul(&b).equals(&Rational::new(1, 18)));
    assert!(a.div(&b).equals(&Rational::from_int(2)));
    assert!(Rational::from_int(-3).is_nonneg() == false);
    assert!(Rational::new(-3, 7).is_pos() == false);
    assert!(b.is_pos());
}

#[test]
fn constant_parameter_empty_interval_integrates_to_zero() {
    let param = ConstantParameter::new(Rational::from_int(10));
    let t = Rational::new(7, 2);
    assert!(param.integral(&t, &t).equals(&Rational::zero()));
    assert!(param.integral_square(&t, &t).equals(&Rational::zero()));
}

#[test]
fn constant_parameter_fractional_interval() {
    // c = 1/4 over [1/2, 5/2]: integral = 1/2, integral of the square = 1/8
    let param = ConstantParameter::new(Rational::new(1, 4));
    let t1 = Rational::new(1, 2);
    let t2 = Rational::new(5, 2);
    assert!(param.integral(&t1, &t2).equals(&Rational::new(1, 2)));
    assert!(param.integral_square(&t1, &t2).equals(&Rational::new(1, 8)));
    assert!(param.mean(&t1, &t2).equals(&Rational::new(1, 4)));
    assert!(param.root_mean_square(&t1, &t2).equals(&Rational::new(1, 16)));
}

#[test]
fn vanilla_option_flow_applies_payoff() {
    let payoff = CallPayoff::new(Rational::from_int(100));
    let option = VanillaOption::new(payoff, Rational::from_int(1));
    assert!(option.flow(&Rational::from_int(150)).equals(&Rational::from_int(50)));
    assert!(option.flow(&Rational::from_int(80)).equals(&Rational::zero()));
}

#[test]
fn engine_log_spot_terms_exact() {
    // spot 100, strike 100, expiry 1, vol 1/4, rate 1/20:
    // variance = 1/16, ito correction = -1/32, drift = 1/20
    let payoff = CallPayoff::new(Rational::from_int(100));
    let product = VanillaOption::new(payoff, Rational::from_int(1));
    let vol = ConstantParameter::new(Rational::new(1, 4));
    let rate = ConstantParameter::new(Rational::new(1, 20));
    let (variance, ito_correction, drift) = log_spot_terms(&product, &vol, &rate);
    assert!(variance.equals(&Rational::new(1, 16)));
    assert!(ito_correction.equals(&Rational::new(-1, 32)));
    assert!(drift.equals(&Rational::new(1, 20)));
}

#[test]
fn engine_record_path_discounts_and_accumulates() {
    // strike 100, discount 9/10, terminal spots 150 and 50:
    // flows 50 and 0, discounted 45 and 0, running mean 45/2
    let payoff = CallPayoff::new(Rational::from_int(100));
    let product = VanillaOption::new(payoff, Rational::from_int(1));
    let discount = Rational::new(9, 10);
    let mut collector = MonteCarloMeanCollector::new();

    let first = record_path(&product, &discount, &Rational::from_int(150), &mut collector);
    assert!(first.equals(&Rational::from_int(45)));
    let second = record_path(&product, &discount, &Rational::from_int(50), &mut collector);
    assert!(second.equals(&Rational::zero()));

    let stats = collector.running_stats();
    assert_eq!(stats.len(), 1);
    assert_eq!(stats[0].len(), 1);
    assert!(stats[0][0].equals(&Rational::new(45, 2)));
}

#[test]
fn engine_run_paths_prices_exactly() {
    // strike 100, discount 4/5, terminal spots 150, 50 and 100:
    // flows 50, 0 and 0, discounted 40, 0 and 0, mean 40/3
    let payoff = CallPayoff::new(Rational::from_int(100));
    let product = VanillaOption::new(payoff, Rational::from_int(1));
    let discount = Rational::new(4, 5);
    let spots = vec![
        Rational::from_int(150),
        Rational::from_int(50),
        Rational::from_int(100),
    ];
    let mut collector = MonteCarloMeanCollector::new();

    let paths_run = run_paths(&product, &discount, &spots, &mut collector);
    assert_eq!(paths_run, 3);

    let stats = collector.running_stats();
    assert!(stats[0][0].equals(&Rational::new(40, 3)));
}

#[test]
fn mean_collector_single_result() {
    let mut collector = MonteCarloMeanCollector::new();
    collector.accumulate_result(Rational::new(-7, 3));
    let stats = collector.running_stats();
    assert!(stats[0][0].equals(&Rational::new(-7, 3)));
}

#[test]
fn mean_collector_fractional_results() {
    // mean of 1/2, 1/4 and 3/4 is exactly 1/2
    let mut collector = MonteCarloMeanCollector::new();
    collector.accumulate_result(Rational::new(1, 2));
    collector.accumulate_result(Rational::new(1, 4));
    collector.accumulate_result(Rational::new(3, 4));
    let stats = collector.running_stats();
    assert!(stats[0][0].equals(&Rational::new(1, 2)));
}
