//! Decision logic of a quantitative engine for daily closing prices: histogram
//! binning and the tail index of the simulated outcomes, the warm-up policy of the
//! technical indicators, strategy signals with their hysteresis, and the trade plan
//! that a backtest executes with a one-day lag.
pub mod metrics;
pub mod strategy;
pub mod backtest;
pub mod indicators;
pub mod simulation;
