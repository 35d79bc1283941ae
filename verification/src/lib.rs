//! A rolling order-flow-toxicity metric (a VPIN-style imbalance ratio) over a
//! sliding window of trade buckets.
//!
//! One analyzer instance tracks one stream of trade ticks. Each tick becomes
//! one bucket of the window; the oldest bucket is evicted once the window
//! holds more than its configured maximum. The toxicity score over the window
//! is the sum of per-bucket order imbalances divided by the total volume, a
//! ratio in `[0, 1]`.
//!
//! Volumes are fixed-point integers (the caller picks the unit); the score is
//! returned as an exact rational, numerator and denominator, so that every
//! arithmetic step stays within verified integer arithmetic.

pub mod analyzer;
pub mod model;

pub use crate::analyzer::AnalyzerError;
pub use crate::analyzer::MicrostructureAnalyzer;
pub use crate::analyzer::Side;
pub use crate::analyzer::VpinScore;
