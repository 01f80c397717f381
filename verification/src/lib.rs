//! Decision core of a peer-to-peer block download command.
//!
//! The crate decides; its caller performs. Bootstrapping the node, asking peers
//! for a header or a body and sleeping between attempts are left to the caller,
//! who reports what happened as an event and is told what to do next as an
//! action. Every decision is proved against a mathematical model of the
//! command.

pub mod backoff;
pub mod command;
pub mod error;
pub mod fetch;
pub mod ident;
pub mod laws;
pub mod peers;
pub mod retry;
pub mod session;
