//! Server-side object model and message-dispatch core of a display-server
//! wire-protocol library.
//!
//! The crate tracks every protocol object instantiated inside a client
//! connection, routes incoming requests to registered dispatch filters,
//! emits outgoing events with version and liveness checks, and lets an
//! object's lifetime be governed by protocol messages rather than by
//! handle reference counts.

pub mod backend;
pub mod client;
pub mod delegating;
pub mod entry;
pub mod filter;
pub mod message;
pub mod model;
pub mod registry;
pub mod resource;
pub mod user_data;
