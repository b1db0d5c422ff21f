//! Core of a small Monte Carlo pricer for European-style equity
//! derivatives under a lognormal spot-price model.
//!
//! The verified core works in exact rational arithmetic: payoffs,
//! time-dependent parameters, products and statistics collectors are
//! specified and proved over fractions of unbounded integers.  The
//! transcendental steps of the simulation (square roots, exponentials,
//! random draws) have no exact counterpart and live outside this core;
//! callers hand the core exact values (terminal spots, discount
//! factors) and receive exact results back.

pub mod engine;
pub mod parameters;
pub mod payoffs;
pub mod products;
pub mod rational;
pub mod stats_collectors;
