//! A verified HTTP transport bridge: it adapts an edge-compute sandbox's
//! poll-driven request primitives into the asynchronous connector shape that a
//! generic SDK client runtime expects.
//!
//! The library holds the logic of the bridge: body and message conversion,
//! the transport-failure classifier, the poll-bridge state machine, and the
//! connector orchestration, all stated over plain values and verified. The
//! host sandbox's own types and the executor plumbing live outside, handing
//! the library plain values and taking plain values back.

pub mod body;
pub mod bridge;
pub mod client;
pub mod connector;
pub mod error;
pub mod message;
