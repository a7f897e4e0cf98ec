//! A verified request-dispatch core for a blockchain full node.
//!
//! The crate has two halves. The dispatch half turns named handler
//! functions into uniformly error-mapped, call-counted endpoints behind a
//! routing table with unique method names. The producer half is the pure
//! core of a polling loop that keeps layer-1 chain state fresh: it queries
//! an upstream source on a fixed schedule, forwards successes to a sink,
//! tolerates individual query failures, and stops only when the consumer
//! side of the sink is gone.

pub mod context;
pub mod dispatch;
pub mod error;
pub mod params;
pub mod producer;
pub mod testing;
