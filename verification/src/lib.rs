//! A build-time mock generator: given the method signatures of an interface
//! (a trait), it synthesizes the source text of a concrete type implementing
//! that interface, where each method returns either a caller-configured
//! expression or a canonical "not configured" failure expression.
//!
//! Two configuration styles are supported: a caller-owned registry that
//! collects interface signatures and per-type return overrides across
//! independent declarations, and a self-contained local configuration
//! supplied inline with the interface declaration itself.

pub mod descriptor;
pub mod extract;
pub mod registry;
pub mod error;
pub mod expr;
pub mod synth;
pub mod emit;
pub mod config;
pub mod driver;
