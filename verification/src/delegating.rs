//! The delegating backend.
//!
//! This backend is a projection over an object table whose canonical
//! owner is an external native transport runtime. The external driver
//! keeps the projection current through two callbacks: `external_created`
//! when the owner instantiates an object this registry never created, and
//! `external_destroyed` when the owner destroys an id, which cascades
//! into `mark_dead` here. Entries that arrived through the first callback
//! are flagged externally owned: they reject user-data attachment, and
//! their liveness and version state only what the owner last reported.
//! Events accepted by `send_event` are serialization requests for the
//! owner; the driver drains them in order. Ids the owner assigns arrive
//! through `external_created`, which moves the local allocator past
//! them; objects created here keep the allocator's own fresh ids, which
//! stand for the ones the owner hands out at creation time.
//!
//! Everything above the `ObjectBackend` trait behaves identically over
//! this backend and over the self-contained one.

use vstd::prelude::*;
use crate::client::Client;
use crate::filter::{DestructorCall, Filter, RequestCall};
use crate::message::EventMsg;
use crate::model::{spec_mark_dead, BackendView};
use crate::backend::ObjectBackend;
use crate::registry::EntryTable;
use crate::user_data::{UserData, UserDataAccess};
use crate::entry::Entry;

verus! {

/// Registry state projected from an externally owned object table.
pub struct DelegatingBackend {
    pub table: EntryTable,
}

impl DelegatingBackend {
    /// A fresh projection: nothing reported by the owner yet.
    pub fn new() -> (r: DelegatingBackend)
        ensures
            r.inv(),
            r.spec_id_space_left(),
            r.view().entries.len() == 0,
            r.view().clients.len() == 0,
            r.view().sent.len() == 0,
    {
        DelegatingBackend { table: EntryTable::new() }
    }

    /// Callback: the external owner instantiated an object with `id` at
    /// `version` inside `client`'s connection. Rejected if a live entry
    /// already carries that id; otherwise the object appears here as an
    /// externally owned live entry.
    pub fn external_created(&mut self, id: u32, version: u32, client: Client) -> (r: Option<
        usize,
    >)
        requires
            old(self).inv(),
            client.index < old(self).view().clients.len(),
        ensures
            final(self).inv(),
            final(self).view().clients == old(self).view().clients,
            final(self).view().sent == old(self).view().sent,
            (exists|j: int|
                0 <= j < old(self).view().entries.len()
                    && (#[trigger] old(self).view().entries[j]).alive
                    && old(self).view().entries[j].id == id) ==> r is None && final(self).view()
                == old(self).view(),
            (forall|j: int|
                0 <= j < old(self).view().entries.len()
                    ==> !((#[trigger] old(self).view().entries[j]).alive
                    && old(self).view().entries[j].id == id)) ==> r == Some(
                old(self).view().entries.len() as usize,
            ) && final(self).view().entries == old(self).view().entries.push(
                Entry {
                    id,
                    version,
                    alive: true,
                    external: true,
                    client: client.index,
                    user_data: UserData { slot: None },
                    request_filter: None,
                    destructor_filter: None,
                    destructor_done: false,
                },
            ),
    {
        self.table.register_external(id, version, client)
    }

    /// Adopt an object instantiated under an owner-assigned id as a
    /// fully library-managed entry: unlike `external_created`, the
    /// object accepts user data and its lifetime is governed here, as
    /// for an entry `create` made. Rejected if a live entry already
    /// carries the id.
    pub fn register_managed(&mut self, id: u32, version: u32, client: Client) -> (r: Option<
        usize,
    >)
        requires
            old(self).inv(),
            client.index < old(self).view().clients.len(),
        ensures
            final(self).inv(),
            final(self).view().clients == old(self).view().clients,
            final(self).view().sent == old(self).view().sent,
            (exists|j: int|
                0 <= j < old(self).view().entries.len()
                    && (#[trigger] old(self).view().entries[j]).alive
                    && old(self).view().entries[j].id == id) ==> r is None && final(self).view()
                == old(self).view(),
            (forall|j: int|
                0 <= j < old(self).view().entries.len()
                    ==> !((#[trigger] old(self).view().entries[j]).alive
                    && old(self).view().entries[j].id == id)) ==> r == Some(
                old(self).view().entries.len() as usize,
            ) && final(self).view().entries == old(self).view().entries.push(
                Entry {
                    id,
                    version,
                    alive: true,
                    external: false,
                    client: client.index,
                    user_data: UserData { slot: None },
                    request_filter: None,
                    destructor_filter: None,
                    destructor_done: false,
                },
            ),
    {
        self.table.register_managed(id, version, client)
    }

    /// Callback: the external owner destroyed `id`. The projection
    /// cascades into `mark_dead`, so the destructor filter of the entry,
    /// if any, is handed back to be invoked exactly once. An unknown or
    /// already-dead id is a no-op: destruction races are expected.
    pub fn external_destroyed(&mut self, id: u32) -> (r: Option<DestructorCall>)
        requires
            old(self).inv(),
        ensures
            final(self).inv(),
            forall|w: int|
                0 <= w < old(self).view().entries.len()
                    && (#[trigger] old(self).view().entries[w]).alive
                    && old(self).view().entries[w].id == id
                    ==> final(self).view() == spec_mark_dead(old(self).view(), w).0
                        && r == spec_mark_dead(old(self).view(), w).1,
            (forall|j: int|
                0 <= j < old(self).view().entries.len()
                    ==> !((#[trigger] old(self).view().entries[j]).alive
                    && old(self).view().entries[j].id == id)) ==> r is None && final(self).view()
                == old(self).view(),
    {
        let found = self.table.lookup(id);
        match found {
            Option::None => None,
            Option::Some(i) => {
                proof {
                    self.table.inv_implies_wf();
                    assert forall|w: int|
                        0 <= w < self.view().entries.len()
                            && (#[trigger] self.view().entries[w]).alive
                            && self.view().entries[w].id == id implies w == i as int by {}
                }
                self.table.mark_dead(i)
            },
        }
    }
}

impl ObjectBackend for DelegatingBackend {
    open spec fn view(&self) -> BackendView {
        self.table.view()
    }

    open spec fn inv(&self) -> bool {
        self.table.inv()
    }

    open spec fn spec_id_space_left(&self) -> bool {
        self.table.spec_id_space_left()
    }

    proof fn inv_implies_wf(&self) {
        self.table.inv_implies_wf();
    }

    fn new_client(&mut self) -> (c: Client) {
        self.table.new_client()
    }

    fn create(&mut self, max_version: u32, version: u32, client: Client) -> (r: Option<usize>) {
        self.table.create(max_version, version, client)
    }

    fn lookup(&self, id: u32) -> (r: Option<usize>) {
        self.table.lookup(id)
    }

    fn mark_dead(&mut self, i: usize) -> (r: Option<DestructorCall>) {
        self.table.mark_dead(i)
    }

    fn send_event(&mut self, i: usize, msg: EventMsg) {
        self.table.send_event(i, msg)
    }

    fn dispatch_request(&self, i: usize, opcode: u16, args: Vec<u64>) -> (r: Option<RequestCall>) {
        self.table.dispatch_request(i, opcode, args)
    }

    fn assign_filter(&mut self, i: usize, f: Filter, destructor: bool) -> (ok: bool) {
        self.table.assign_filter(i, f, destructor)
    }

    fn set_user_data(&mut self, i: usize, tag: u64, value: u64) -> (ok: bool) {
        self.table.set_user_data(i, tag, value)
    }

    fn get_user_data(&self, i: usize, tag: u64) -> (r: UserDataAccess) {
        self.table.get_user_data(i, tag)
    }

    fn user_data_of(&self, i: usize) -> (r: UserData) {
        self.table.user_data_of(i)
    }

    fn post_error(&mut self, i: usize, code: u32, message: String) {
        self.table.post_error(i, code, message)
    }

    fn close_client(&mut self, c: Client) {
        self.table.close_client(c)
    }

    fn client_connected(&self, c: Client) -> (r: bool) {
        self.table.client_connected(c)
    }

    fn client_faulted(&self, c: Client) -> (r: bool) {
        self.table.client_faulted(c)
    }

    fn num_entries(&self) -> (n: usize) {
        self.table.num_entries()
    }

    fn num_clients(&self) -> (n: usize) {
        self.table.num_clients()
    }

    fn num_sent(&self) -> (n: usize) {
        self.table.num_sent()
    }

    fn id_space_left(&self) -> (r: bool) {
        self.table.id_space_left()
    }

    fn entry_alive(&self, i: usize) -> (r: bool) {
        self.table.entry_alive(i)
    }

    fn entry_version(&self, i: usize) -> (r: u32) {
        self.table.entry_version(i)
    }

    fn entry_id(&self, i: usize) -> (r: u32) {
        self.table.entry_id(i)
    }

    fn entry_client(&self, i: usize) -> (r: usize) {
        self.table.entry_client(i)
    }

    fn entry_external(&self, i: usize) -> (r: bool) {
        self.table.entry_external(i)
    }
}

} // verus!
