//! Lifecycle control plane for an embeddable HTTP server: configuration
//! validation with lenient fallback, the start/stop state machine, the
//! graceful-shutdown handshake with the serving task, the in-flight
//! connection tally, the fixed route table, and operational stats.
//!
//! The controller decides and the surrounding runtime acts: binding the
//! socket and running the accept loop happen outside, and their outcomes
//! are fed back in as events. Every transition is specified against a
//! mathematical model of the state machine and proved, including that the
//! connection tally is exactly zero whenever the server is stopped, over
//! every possible event interleaving.

pub mod config;
pub mod coordinator;
pub mod counter;
pub mod ip;
pub mod lifecycle;
pub mod logbuf;
pub mod routes;
pub mod stats;
pub mod text;
