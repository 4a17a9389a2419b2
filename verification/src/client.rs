//! Client connections.
//!
//! A `Client` value identifies one connection; the state it names lives in
//! the backend, like entry state does. A client owns the entries created
//! within it and carries a fault flag: posting a protocol error sets the
//! flag, and the external driver is expected to observe it after each
//! dispatch cycle, tear the connection down, and cascade `mark_dead` over
//! every owned entry.

use vstd::prelude::*;

verus! {

/// Handle to one client connection, by its slot in the backend.
#[derive(Clone, Copy, PartialEq, Eq, Structural, Debug)]
pub struct Client {
    pub index: usize,
}

/// A protocol error posted against a client: fatal to that connection.
pub struct Fault {
    pub code: u32,
    pub message: String,
}

/// Backend-side state of one connection.
pub struct ClientState {
    pub connected: bool,
    pub fault: Option<Fault>,
}

} // verus!
