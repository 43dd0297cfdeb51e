//! Readiness notification for a compositor running under a service manager.
//!
//! The library computes what must be sent and decides the order of the
//! outbound calls; performing those calls is left to the caller.

pub mod environment;
pub mod readiness;
