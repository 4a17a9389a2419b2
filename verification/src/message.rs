//! Messages crossing the core's boundary.
//!
//! Argument decoding and byte-level framing belong to the external
//! transport; the core sees a message as its opcode, the minimum object
//! version the message requires, and its already-decoded arguments.

use vstd::prelude::*;

verus! {

/// An outgoing event, as application code hands it to `Resource::send`.
///
/// `since` is the interface version that introduced this event: sending it
/// on an object negotiated below that version is a programmer error.
pub struct EventMsg {
    pub opcode: u16,
    pub since: u32,
    pub args: Vec<u64>,
}

/// One event accepted for transmission: what the core hands to the
/// transport for serialization. A dead object never produces one.
pub struct Transmission {
    pub object_id: u32,
    pub opcode: u16,
    pub args: Vec<u64>,
}

/// Static metadata of one protocol interface, as supplied by the
/// code-generated protocol descriptors: its name and the highest version
/// this server supports. Object creation checks the negotiated version
/// against `max_version`.
pub struct InterfaceDesc {
    pub name: String,
    pub max_version: u32,
}

impl InterfaceDesc {
    /// Whether an object of this interface may be created at `version`.
    pub fn supports(&self, version: u32) -> (r: bool)
        ensures
            r == (version <= self.max_version),
    {
        version <= self.max_version
    }
}

} // verus!
