//! Forwards a link to a local helper service over HTTP and interprets its reply.
//!
//! The library holds the wire protocol: the request it sends, the endpoint it
//! posts to, and how each possible reply becomes success or a typed failure.
//! The network exchange itself is left to the caller, which hands back what
//! happened as plain values.

pub mod forwarder;
pub mod protocol;

pub use forwarder::{after_decode, after_send, ForwardError, Forwarder};
pub use protocol::{OpenRequest, OpenResponse};
