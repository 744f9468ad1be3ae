//! Outbound side of a peer-to-peer node's networking layer: routing of
//! locally produced protocol messages to per-peer bounded send queues,
//! with a strict non-blocking, lossy-on-backpressure dispatch contract,
//! per-peer FIFO delivery, and monotone delivery telemetry.

pub mod address;
pub mod message;
pub mod outcome;
pub mod queue;
pub mod registry;
pub mod dispatcher;
pub mod outbound;
