//! The core of a single-threaded asynchronous runtime: the decisions of its
//! scheduler, timer wheel and `io_uring` engine, stated over plain values.

pub mod async_runtime;
pub mod driver;
pub mod engine;
pub mod error;
pub mod fs;
pub mod future;
pub mod impls;
pub mod interval;
pub mod net;
pub mod ops;
pub mod runtime;
pub mod timer;
