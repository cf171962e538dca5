//! Sockets.

pub mod socket;
