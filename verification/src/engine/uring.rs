//! The `io_uring` backend.

pub mod dispatch;
pub mod engine;
pub mod op;
pub mod params;
pub mod queue;
pub mod setup;
pub mod wake;
