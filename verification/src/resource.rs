//! The public handle to a protocol object.
//!
//! A `Resource` is a cheap, copyable value naming one registry entry.
//! Several handles to the same object may exist at a time; cloning a
//! handle clones the handle, never the object, and a handle's existence
//! does not keep the object alive: the object's lifetime is governed by
//! protocol messages (destroy requests, client disconnect) through the
//! backend. Every operation delegates to the entry the handle names, so
//! all handles to one entry observe the same liveness, version and user
//! data at all times.

use vstd::prelude::*;
use crate::backend::ObjectBackend;
use crate::client::Client;
use crate::filter::Filter;
use crate::message::{EventMsg, InterfaceDesc};
use crate::model::{spec_assign, spec_post_error, spec_send};
use crate::user_data::UserData;

verus! {

/// Handle to one registry entry. Handles are interchangeable: two compare
/// equal exactly when they name the same entry, regardless of how they
/// were obtained.
#[derive(Clone, Copy, PartialEq, Eq, Structural, Debug)]
pub struct Resource {
    pub index: usize,
}

impl Resource {
    /// Whether this handle names an entry of the backend at all. Handles
    /// from `create` and `lookup` do, and stay valid: entry storage is
    /// append-only.
    pub open spec fn names_entry_of<B: ObjectBackend>(self, b: &B) -> bool {
        self.index < b.view().entries.len()
    }

    /// Wrap a raw entry slot in a handle, as the dispatch driver does
    /// after a lookup.
    pub fn wrap(index: usize) -> (r: Resource)
        ensures
            r.index == index,
    {
        Resource { index }
    }

    /// Create a protocol object of interface `iface` at the negotiated
    /// `version`, owned by `client`, and hand back the first handle to
    /// it. Fails exactly when `version` exceeds the interface's supported
    /// maximum or the backend's id space is exhausted.
    pub fn create<B: ObjectBackend>(
        b: &mut B,
        iface: &InterfaceDesc,
        version: u32,
        client: Client,
    ) -> (r: Option<Resource>)
        requires
            old(b).inv(),
            client.index < old(b).view().clients.len(),
        ensures
            final(b).inv(),
            final(b).view().clients == old(b).view().clients,
            final(b).view().sent == old(b).view().sent,
            version > iface.max_version || !old(b).spec_id_space_left()
                ==> r is None && final(b).view() == old(b).view(),
            version <= iface.max_version && old(b).spec_id_space_left() ==> {
                &&& r == Some(Resource { index: old(b).view().entries.len() as usize })
                &&& final(b).view().entries.len() == old(b).view().entries.len() + 1
                &&& forall|j: int|
                    0 <= j < old(b).view().entries.len()
                        ==> #[trigger] final(b).view().entries[j] == old(b).view().entries[j]
                &&& final(b).view().entries.last().alive
                &&& final(b).view().entries.last().version == version
                &&& final(b).view().entries.last().client == client.index
                &&& !final(b).view().entries.last().external
                &&& final(b).view().entries.last().user_data.slot is None
                &&& final(b).view().entries.last().request_filter is None
                &&& final(b).view().entries.last().destructor_filter is None
                &&& !final(b).view().entries.last().destructor_done
                &&& forall|j: int|
                    0 <= j < old(b).view().entries.len()
                        ==> (#[trigger] final(b).view().entries[j]).id
                            != final(b).view().entries.last().id
            },
    {
        match b.create(iface.max_version, version, client) {
            Option::None => None,
            Option::Some(i) => Some(Resource { index: i }),
        }
    }

    /// Send an event through this object to its client. A dead object
    /// delivers nothing, silently: destroy races are expected. On a live
    /// object the event's minimum version must not exceed the object's
    /// negotiated version — a violation is a programmer error, excluded
    /// by contract rather than handled at run time (`can_send` tests the
    /// gate first).
    pub fn send<B: ObjectBackend>(&self, b: &mut B, msg: EventMsg)
        requires
            old(b).inv(),
            self.names_entry_of(old(b)),
            old(b).view().entries[self.index as int].alive
                ==> msg.since <= old(b).view().entries[self.index as int].version,
        ensures
            final(b).inv(),
            final(b).view() == spec_send(old(b).view(), self.index as int, msg.opcode, msg.args@),
    {
        b.send_event(self.index, msg)
    }

    /// Whether sending an event introduced at version `since` through
    /// this object satisfies `send`'s version gate.
    pub fn can_send<B: ObjectBackend>(&self, b: &B, since: u32) -> (r: bool)
        requires
            b.inv(),
            self.names_entry_of(b),
        ensures
            r == (b.view().entries[self.index as int].alive ==> since
                <= b.view().entries[self.index as int].version),
    {
        !b.entry_alive(self.index) || since <= b.entry_version(self.index)
    }

    /// Whether the object this handle names is still alive. `false` once
    /// it has been destroyed, through any handle or by its client's
    /// disconnect.
    pub fn is_alive<B: ObjectBackend>(&self, b: &B) -> (r: bool)
        requires
            b.inv(),
            self.names_entry_of(b),
        ensures
            r == b.view().entries[self.index as int].alive,
    {
        b.entry_alive(self.index)
    }

    /// The interface version negotiated at creation; 0 on a dead object.
    pub fn version<B: ObjectBackend>(&self, b: &B) -> (r: u32)
        requires
            b.inv(),
            self.names_entry_of(b),
        ensures
            b.view().entries[self.index as int].alive ==> r
                == b.view().entries[self.index as int].version,
            !b.view().entries[self.index as int].alive ==> r == 0,
    {
        if b.entry_alive(self.index) {
            b.entry_version(self.index)
        } else {
            0
        }
    }

    /// The numeric id of the object within its client connection.
    pub fn id<B: ObjectBackend>(&self, b: &B) -> (r: u32)
        requires
            b.inv(),
            self.names_entry_of(b),
        ensures
            r == b.view().entries[self.index as int].id,
    {
        b.entry_id(self.index)
    }

    /// Whether the other handle names the same underlying object. Entry
    /// identity, not handle identity: a handle to a destroyed-then-
    /// recreated id names a different entry and is not equal to a handle
    /// from before, even though the ids coincide.
    pub fn equals(&self, other: &Resource) -> (r: bool)
        ensures
            r == (self.index == other.index),
    {
        self.index == other.index
    }

    /// Whether this object and the other belong to the same client.
    /// Always false when either side is dead, even for two objects
    /// created on the identical connection: liveness is required for the
    /// comparison to mean anything.
    pub fn same_client_as<B: ObjectBackend>(&self, b: &B, other: &Resource) -> (r: bool)
        requires
            b.inv(),
            self.names_entry_of(b),
            other.names_entry_of(b),
        ensures
            r == (b.view().entries[self.index as int].alive
                && b.view().entries[other.index as int].alive
                && b.view().entries[self.index as int].client
                == b.view().entries[other.index as int].client),
    {
        b.entry_alive(self.index) && b.entry_alive(other.index) && b.entry_client(self.index)
            == b.entry_client(other.index)
    }

    /// Post a protocol error against this object's client: fatal to that
    /// connection, whose fault flag is set for the driver to observe; a
    /// dead object posts nothing.
    pub fn post_error<B: ObjectBackend>(&self, b: &mut B, error_code: u32, msg: String)
        requires
            old(b).inv(),
            self.names_entry_of(old(b)),
        ensures
            final(b).inv(),
            final(b).view() == spec_post_error(old(b).view(), self.index as int, error_code, msg@),
    {
        b.post_error(self.index, error_code, msg)
    }

    /// The user-data slot of this object, shared by every handle to it.
    /// Succeeds even on a dead object: the slot outlives the liveness
    /// flag so destructor filters can still read accumulated state.
    pub fn user_data<B: ObjectBackend>(&self, b: &B) -> (r: UserData)
        requires
            b.inv(),
            self.names_entry_of(b),
        ensures
            r == b.view().entries[self.index as int].user_data,
    {
        b.user_data_of(self.index)
    }

    /// Attach a payload to this object's user-data slot: at most once per
    /// object, and never on an externally owned one (a programmer error,
    /// excluded by contract).
    pub fn set_user_data<B: ObjectBackend>(&self, b: &mut B, tag: u64, value: u64) -> (ok: bool)
        requires
            old(b).inv(),
            self.names_entry_of(old(b)),
            !old(b).view().entries[self.index as int].external,
        ensures
            final(b).inv(),
            final(b).view().clients == old(b).view().clients,
            final(b).view().sent == old(b).view().sent,
            ok == (old(b).view().entries[self.index as int].user_data.slot is None),
            ok ==> final(b).view().entries == old(b).view().entries.update(
                self.index as int,
                crate::entry::Entry {
                    user_data: UserData {
                        slot: Some(crate::user_data::UdSlot { tag, value }),
                    },
                    ..old(b).view().entries[self.index as int]
                },
            ),
            !ok ==> final(b).view() == old(b).view(),
    {
        b.set_user_data(self.index, tag, value)
    }

    /// Handle to the client this object belongs to; absent exactly when
    /// the object is dead.
    pub fn client<B: ObjectBackend>(&self, b: &B) -> (r: Option<Client>)
        requires
            b.inv(),
            self.names_entry_of(b),
        ensures
            b.view().entries[self.index as int].alive ==> r == Some(
                Client { index: b.view().entries[self.index as int].client },
            ),
            !b.view().entries[self.index as int].alive ==> r is None,
    {
        if b.entry_alive(self.index) {
            Some(Client { index: b.entry_client(self.index) })
        } else {
            None
        }
    }

    /// Whether the object is owned by the external transport rather than
    /// managed by this library. Only a delegating backend ever reports
    /// true.
    pub fn is_external<B: ObjectBackend>(&self, b: &B) -> (r: bool)
        requires
            b.inv(),
            self.names_entry_of(b),
        ensures
            r == b.view().entries[self.index as int].external,
    {
        b.entry_external(self.index)
    }

    /// Create a child object of interface `iface` for this object, on the
    /// same client connection, as scanner-generated code does when a
    /// request instantiates a new object. Yields a fresh live child on a
    /// live parent whenever the version is admissible and the id space
    /// is not exhausted; yields nothing, changing nothing, on a dead
    /// parent, an over-version request, or an exhausted id space.
    pub fn make_child_for<B: ObjectBackend>(
        &self,
        b: &mut B,
        iface: &InterfaceDesc,
        version: u32,
    ) -> (r: Option<Resource>)
        requires
            old(b).inv(),
            self.names_entry_of(old(b)),
        ensures
            final(b).inv(),
            final(b).view().clients == old(b).view().clients,
            final(b).view().sent == old(b).view().sent,
            r is None ==> final(b).view() == old(b).view(),
            old(b).view().entries[self.index as int].alive && version <= iface.max_version
                && old(b).spec_id_space_left() ==> r is Some,
            r is Some ==> {
                &&& old(b).view().entries[self.index as int].alive
                &&& version <= iface.max_version
                &&& r == Some(Resource { index: old(b).view().entries.len() as usize })
                &&& final(b).view().entries.len() == old(b).view().entries.len() + 1
                &&& forall|j: int|
                    0 <= j < old(b).view().entries.len()
                        ==> #[trigger] final(b).view().entries[j] == old(b).view().entries[j]
                &&& final(b).view().entries.last().alive
                &&& final(b).view().entries.last().version == version
                &&& final(b).view().entries.last().client
                    == old(b).view().entries[self.index as int].client
                &&& !final(b).view().entries.last().external
                &&& final(b).view().entries.last().user_data.slot is None
                &&& final(b).view().entries.last().request_filter is None
                &&& final(b).view().entries.last().destructor_filter is None
                &&& !final(b).view().entries.last().destructor_done
                &&& forall|j: int|
                    0 <= j < old(b).view().entries.len()
                        ==> (#[trigger] final(b).view().entries[j]).id
                            != final(b).view().entries.last().id
            },
    {
        if !b.entry_alive(self.index) {
            return None;
        }
        let owner = b.entry_client(self.index);
        proof {
            b.inv_implies_wf();
        }
        Resource::create(b, iface, version, Client { index: owner })
    }

    /// Bind the request filter of this object: the unit of logic that
    /// `dispatch_request` will route decoded requests to. At most one
    /// binding per object; a second binding fails and leaves the first
    /// filter in place.
    pub fn assign<B: ObjectBackend>(&self, b: &mut B, filter: Filter) -> (ok: bool)
        requires
            old(b).inv(),
            self.names_entry_of(old(b)),
        ensures
            final(b).inv(),
            final(b).view() == spec_assign(old(b).view(), self.index as int, filter, false).0,
            ok == spec_assign(old(b).view(), self.index as int, filter, false).1,
            ok == (old(b).view().entries[self.index as int].request_filter is None),
    {
        b.assign_filter(self.index, filter, false)
    }

    /// Convenience form of `assign` for a plain handler: wraps the
    /// callback named by `token` in a fresh filter and binds it.
    pub fn assign_mono<B: ObjectBackend>(&self, b: &mut B, token: u64) -> (ok: bool)
        requires
            old(b).inv(),
            self.names_entry_of(old(b)),
        ensures
            final(b).inv(),
            final(b).view() == spec_assign(
                old(b).view(), self.index as int, Filter { token }, false,
            ).0,
            ok == (old(b).view().entries[self.index as int].request_filter is None),
    {
        let f = Filter::new(token);
        self.assign(b, f)
    }

    /// Bind the destructor filter of this object: invoked exactly once,
    /// with a handle to the then-dead entry, when the object is first
    /// destroyed. At most one binding per object.
    pub fn assign_destructor<B: ObjectBackend>(&self, b: &mut B, filter: Filter) -> (ok: bool)
        requires
            old(b).inv(),
            self.names_entry_of(old(b)),
        ensures
            final(b).inv(),
            final(b).view() == spec_assign(old(b).view(), self.index as int, filter, true).0,
            ok == spec_assign(old(b).view(), self.index as int, filter, true).1,
            ok == (old(b).view().entries[self.index as int].destructor_filter is None),
    {
        b.assign_filter(self.index, filter, true)
    }
}

} // verus!
