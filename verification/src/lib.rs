//! Command-line client core for a remote message queue.
//!
//! The library covers the decision-making heart of the tool: validating the
//! invocation, assembling piped input into one outbound message, and routing
//! to exactly one of the send / receive / peek flows with their exact
//! user-facing output. The network transport itself is driven by the
//! surrounding binary.

pub mod config;
pub mod dispatch;
pub mod input;
pub mod ops;
