//! The per-object registry entry.
//!
//! One entry exists per protocol object. Entry storage is append-only:
//! destroying an object flips its `alive` flag but keeps the record, so a
//! recycled numeric id always names a fresh entry and handles to the old
//! object can still read its user data.

use vstd::prelude::*;
use crate::filter::Filter;
use crate::user_data::UserData;

verus! {

/// Canonical state of one protocol object.
///
/// * `alive` transitions exactly once, true to false, never back.
/// * `version` is fixed at creation.
/// * `external` marks an object the external transport owner created and
///   still owns; such an entry rejects user-data attachment and its
///   liveness mirrors the external owner's reports.
/// * `destructor_done` records that the destructor filter already fired,
///   so it can never fire a second time.
#[derive(Clone, Copy, PartialEq, Eq, Structural, Debug)]
pub struct Entry {
    pub id: u32,
    pub version: u32,
    pub alive: bool,
    pub external: bool,
    pub client: usize,
    pub user_data: UserData,
    pub request_filter: Option<Filter>,
    pub destructor_filter: Option<Filter>,
    pub destructor_done: bool,
}

} // verus!
