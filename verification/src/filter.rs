//! Dispatch filters and the calls the core hands back to its driver.
//!
//! A filter is a reusable unit of request-handling logic bound to one
//! registry entry at a time. The handler body itself lives outside the
//! core (it is an arbitrary callback supplied by application code), so the
//! core identifies a filter by an opaque token and verifies the routing
//! around it: a filter is bound at most once per entry, receives request
//! calls while the entry lives, and receives exactly one destructor call.
//!
//! `RequestCall` and `DestructorCall` describe one invocation each; the
//! external driver performs the actual callback with these values.

use vstd::prelude::*;

verus! {

/// A bound unit of request-handling logic, identified by an opaque token
/// chosen by the application when it builds the filter.
#[derive(Clone, Copy, PartialEq, Eq, Structural, Debug)]
pub struct Filter {
    pub token: u64,
}

impl Filter {
    /// Build a filter around the callback named by `token`.
    pub fn new(token: u64) -> (r: Filter)
        ensures
            r.token == token,
    {
        Filter { token }
    }
}

/// One request delivery: the filter `token` is to be invoked with a handle
/// to entry `object_index` and the decoded request.
pub struct RequestCall {
    pub token: u64,
    pub object_index: usize,
    pub object_id: u32,
    pub opcode: u16,
    pub args: Vec<u64>,
}

/// One destructor delivery: the filter `token` is to be invoked once with
/// a handle to the now-dead entry `object_index`.
#[derive(Clone, Copy, PartialEq, Eq, Structural, Debug)]
pub struct DestructorCall {
    pub token: u64,
    pub object_index: usize,
    pub object_id: u32,
}

} // verus!
