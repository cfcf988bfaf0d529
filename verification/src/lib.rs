//! Residential solar-panel performance estimator.
//!
//! The estimator is a pure function from a site/hardware description to an
//! annual and monthly energy projection with derived financial metrics. All
//! fractional quantities are fixed-point integers scaled by one million
//! (micro-units), so that every arithmetic step is exact and verified.

pub mod calculator;
pub mod fixed;
pub mod laws;
pub mod models;
