//! Type-erased per-object payload slot.
//!
//! Every registry entry owns one `UserData` slot, shared by all handles to
//! that object. The payload is set at most once; later reads check a type
//! tag, so a mismatched read fails distinctly from a read of an empty slot.
//! The slot is independent of the owning entry's liveness: it stays readable
//! after the object dies, so destructor filters can still reach it.

use vstd::prelude::*;

verus! {

/// A stored payload: a caller-chosen type tag together with the value.
///
/// Type erasure is modeled by the tag: two readers agree on the payload's
/// type exactly when they present the same tag.
#[derive(Clone, Copy, PartialEq, Eq, Structural, Debug)]
pub struct UdSlot {
    pub tag: u64,
    pub value: u64,
}

/// Outcome of a typed read of a user-data slot.
///
/// `Mismatch` (the tag presented differs from the stored one) is distinct
/// from `Unset` (nothing was ever stored), so a caller can tell the two
/// conditions apart and may choose to initialize an empty slot.
#[derive(Clone, Copy, PartialEq, Eq, Structural, Debug)]
pub enum UserDataAccess {
    Unset,
    Mismatch,
    Value(u64),
}

/// The payload slot attached to one registry entry.
#[derive(Clone, Copy, PartialEq, Eq, Structural, Debug)]
pub struct UserData {
    pub slot: Option<UdSlot>,
}

impl UserData {
    /// What a read with the given tag observes.
    pub open spec fn spec_get(self, tag: u64) -> UserDataAccess {
        match self.slot {
            Option::None => UserDataAccess::Unset,
            Option::Some(s) => if s.tag == tag {
                UserDataAccess::Value(s.value)
            } else {
                UserDataAccess::Mismatch
            },
        }
    }

    /// An empty slot, as every entry starts with.
    pub fn new() -> (r: UserData)
        ensures
            r.slot is None,
    {
        UserData { slot: None }
    }

    /// Store a payload. Succeeds only on the first call; a later call
    /// changes nothing and reports failure.
    pub fn set(&mut self, tag: u64, value: u64) -> (ok: bool)
        ensures
            old(self).slot is None ==> ok && final(self).slot == Some(UdSlot { tag, value }),
            old(self).slot is Some ==> !ok && *final(self) == *old(self),
    {
        match self.slot {
            Option::None => {
                self.slot = Some(UdSlot { tag, value });
                true
            },
            Option::Some(_) => false,
        }
    }

    /// Typed read: the stored value if the tag matches, `Mismatch` if it
    /// does not, `Unset` if nothing was stored.
    pub fn get(&self, tag: u64) -> (r: UserDataAccess)
        ensures
            r == self.spec_get(tag),
    {
        match self.slot {
            Option::None => UserDataAccess::Unset,
            Option::Some(s) => if s.tag == tag {
                UserDataAccess::Value(s.value)
            } else {
                UserDataAccess::Mismatch
            },
        }
    }
}

} // verus!
