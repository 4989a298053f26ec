//! A client library for attaching to a long-running service's real-time
//! command session.
//!
//! The library covers the logic of that protocol: extracting the session
//! identifier from the handshake response, building the upgrade URL and the
//! authentication payload, the bounded retry state machine that drives the
//! readiness poll and the connection upgrade, the FIFO queue of outbound
//! commands and their wire-format envelopes, shaping the result of a command
//! execution, and rendering the container launch commands as argument lists.
//! Network and process I/O stay with the caller, which feeds the state
//! machine one event per completed operation.

pub mod connect;
pub mod escape;
pub mod executor;
pub mod handle;
pub mod launch;
pub mod protocol;
