//! Tenure-based block construction and proposal validation.
//!
//! The crate assembles a candidate block from an ordered transaction list
//! under byte- and execution-budget constraints, manages the tenure
//! lifecycle (new tenure versus continuation), seals the block with
//! transaction- and state-commitment digests, and can replay the identical
//! construction over an externally supplied proposal to decide whether an
//! honest participant would have produced it.

pub mod builder;
pub mod chain;
pub mod codec;
pub mod laws;
pub mod types;
pub mod validate;
