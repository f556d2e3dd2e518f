//! Core of a minimal multi-listener HTTP responder: the coordinated
//! graceful-shutdown lifecycle, modelled and verified as plain state.
//!
//! The library holds the decisions of the service — when a listener may
//! accept, how shutdown is broadcast and drained, how bind and loop outcomes
//! aggregate into one service outcome, and what the one fixed response is.
//! The surrounding process (sockets, signals, the async runtime) drives these
//! decisions from outside.

pub mod coordinator;
pub mod listener;
pub mod outcome;
pub mod response;
pub mod signal;
