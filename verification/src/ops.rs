//! The operations a task can await.

pub mod blocking;
pub mod branch;
pub mod io;
pub mod timers;
