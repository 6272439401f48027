//! Service lifecycle and observability bootstrap: the decisions that assemble a
//! network service, run it, and take it down in order.
pub mod message;
pub mod handlers;
pub mod backend;
pub mod telemetry;
pub mod pipeline;
pub mod runner;
