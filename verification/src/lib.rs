//! Shapes parsed Prometheus exposition metrics into uniform structured rows.
//!
//! The exposition text itself is read by an external parser; this crate takes
//! that parser's outcome — metric groups of the five Prometheus kinds — and
//! produces one row per label combination, with nested bucket and quantile
//! records for histograms and summaries. Floating-point sample values travel
//! through as their IEEE 754 bit patterns, untouched, so the host can render
//! them without this crate ever rounding or reinterpreting them.

pub mod metrics;
pub mod rows;
pub mod convert;
pub mod laws;
