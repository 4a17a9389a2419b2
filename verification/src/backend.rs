//! The backend contract, and the self-contained backend.
//!
//! Every component above this layer — handles, filters, the disconnect
//! cascade — is written only against `ObjectBackend`, never against a
//! backend's internals, so the choice of backend is a single
//! composition-time decision. The two implementations, `ServerBackend`
//! here and `DelegatingBackend` in `crate::delegating`, promise the same
//! view-level contract for every operation.

use vstd::prelude::*;
use crate::client::Client;
use crate::filter::{DestructorCall, Filter, RequestCall};
use crate::message::EventMsg;
use crate::model::{
    spec_assign, spec_cascade_calls, spec_mark_dead, spec_post_error, spec_send, wf, BackendView,
    ClientView,
};
use crate::registry::EntryTable;
use crate::user_data::{UdSlot, UserData, UserDataAccess};
use crate::entry::Entry;

verus! {

/// Canonical lifecycle authority for the objects of one connection set.
///
/// The trait pins each operation to the one abstract transition of
/// `crate::model`, so code written against it holds for every backend.
pub trait ObjectBackend: Sized {
    /// Abstract state of this backend.
    spec fn view(&self) -> BackendView;

    /// Internal invariant, established by construction and preserved by
    /// every operation.
    spec fn inv(&self) -> bool;

    /// Whether the id allocator can still serve a creation.
    spec fn spec_id_space_left(&self) -> bool;

    proof fn inv_implies_wf(&self)
        requires
            self.inv(),
        ensures
            wf(self.view()),
    ;

    /// Register a new connection.
    fn new_client(&mut self) -> (c: Client)
        requires
            old(self).inv(),
        ensures
            final(self).inv(),
            final(self).spec_id_space_left() == old(self).spec_id_space_left(),
            c.index == old(self).view().clients.len(),
            final(self).view().clients == old(self).view().clients.push(
                ClientView { connected: true, fault: None },
            ),
            final(self).view().entries == old(self).view().entries,
            final(self).view().sent == old(self).view().sent,
    ;

    /// Create an object at `version` of an interface whose maximum
    /// supported version is `max_version`, owned by `client`.
    fn create(&mut self, max_version: u32, version: u32, client: Client) -> (r: Option<usize>)
        requires
            old(self).inv(),
            client.index < old(self).view().clients.len(),
        ensures
            final(self).inv(),
            final(self).view().clients == old(self).view().clients,
            final(self).view().sent == old(self).view().sent,
            version > max_version || !old(self).spec_id_space_left() ==> r is None
                && final(self).view() == old(self).view(),
            version <= max_version && old(self).spec_id_space_left() ==> {
                &&& r == Some(old(self).view().entries.len() as usize)
                &&& final(self).view().entries.len() == old(self).view().entries.len() + 1
                &&& forall|j: int|
                    0 <= j < old(self).view().entries.len()
                        ==> #[trigger] final(self).view().entries[j] == old(self).view().entries[j]
                &&& final(self).view().entries.last() == (Entry {
                    id: final(self).view().entries.last().id,
                    version,
                    alive: true,
                    external: false,
                    client: client.index,
                    user_data: UserData { slot: None },
                    request_filter: None,
                    destructor_filter: None,
                    destructor_done: false,
                })
                &&& forall|j: int|
                    0 <= j < old(self).view().entries.len()
                        ==> (#[trigger] final(self).view().entries[j]).id
                            != final(self).view().entries.last().id
            },
    ;

    /// Find the live entry carrying `id`; a miss is an absence, not a
    /// fault.
    fn lookup(&self, id: u32) -> (r: Option<usize>)
        requires
            self.inv(),
        ensures
            match r {
                Option::Some(i) => i < self.view().entries.len()
                    && self.view().entries[i as int].alive
                    && self.view().entries[i as int].id == id,
                Option::None => forall|j: int|
                    0 <= j < self.view().entries.len()
                        ==> !((#[trigger] self.view().entries[j]).alive
                        && self.view().entries[j].id == id),
            },
    ;

    /// Destroy entry `i`; idempotent, yielding the destructor call on the
    /// first destruction only.
    fn mark_dead(&mut self, i: usize) -> (r: Option<DestructorCall>)
        requires
            old(self).inv(),
            i < old(self).view().entries.len(),
        ensures
            final(self).inv(),
            final(self).spec_id_space_left() == old(self).spec_id_space_left(),
            final(self).view() == spec_mark_dead(old(self).view(), i as int).0,
            r == spec_mark_dead(old(self).view(), i as int).1,
    ;

    /// Send an event through entry `i`; silent on a dead entry, and the
    /// version gate must already hold on a live one.
    fn send_event(&mut self, i: usize, msg: EventMsg)
        requires
            old(self).inv(),
            i < old(self).view().entries.len(),
            old(self).view().entries[i as int].alive
                ==> msg.since <= old(self).view().entries[i as int].version,
        ensures
            final(self).inv(),
            final(self).spec_id_space_left() == old(self).spec_id_space_left(),
            final(self).view() == spec_send(old(self).view(), i as int, msg.opcode, msg.args@),
    ;

    /// Route an incoming request on entry `i` to its registered filter;
    /// nothing is yielded for a dead entry or an unfiltered one.
    fn dispatch_request(&self, i: usize, opcode: u16, args: Vec<u64>) -> (r: Option<RequestCall>)
        requires
            self.inv(),
            i < self.view().entries.len(),
        ensures
            match r {
                Option::Some(c) => self.view().entries[i as int].alive
                    && self.view().entries[i as int].request_filter == Some(
                    Filter { token: c.token },
                ) && c.object_index == i && c.object_id == self.view().entries[i as int].id
                    && c.opcode == opcode && c.args@ == args@,
                Option::None => !(self.view().entries[i as int].alive
                    && self.view().entries[i as int].request_filter is Some),
            },
    ;

    /// Bind a filter to entry `i`; each slot binds at most once.
    fn assign_filter(&mut self, i: usize, f: Filter, destructor: bool) -> (ok: bool)
        requires
            old(self).inv(),
            i < old(self).view().entries.len(),
        ensures
            final(self).inv(),
            final(self).spec_id_space_left() == old(self).spec_id_space_left(),
            final(self).view() == spec_assign(old(self).view(), i as int, f, destructor).0,
            ok == spec_assign(old(self).view(), i as int, f, destructor).1,
    ;

    /// Attach a payload to entry `i`'s user-data slot, once per entry;
    /// externally owned entries reject attachment by contract.
    fn set_user_data(&mut self, i: usize, tag: u64, value: u64) -> (ok: bool)
        requires
            old(self).inv(),
            i < old(self).view().entries.len(),
            !old(self).view().entries[i as int].external,
        ensures
            final(self).inv(),
            final(self).spec_id_space_left() == old(self).spec_id_space_left(),
            final(self).view().clients == old(self).view().clients,
            final(self).view().sent == old(self).view().sent,
            old(self).view().entries[i as int].user_data.slot is None ==> ok
                && final(self).view().entries == old(self).view().entries.update(
                i as int,
                Entry {
                    user_data: UserData { slot: Some(UdSlot { tag, value }) },
                    ..old(self).view().entries[i as int]
                },
            ),
            old(self).view().entries[i as int].user_data.slot is Some
                ==> !ok && final(self).view() == old(self).view(),
    ;

    /// Typed read of entry `i`'s user-data slot; liveness is irrelevant.
    fn get_user_data(&self, i: usize, tag: u64) -> (r: UserDataAccess)
        requires
            self.inv(),
            i < self.view().entries.len(),
        ensures
            r == self.view().entries[i as int].user_data.spec_get(tag),
    ;

    /// The whole user-data slot of entry `i`.
    fn user_data_of(&self, i: usize) -> (r: UserData)
        requires
            self.inv(),
            i < self.view().entries.len(),
        ensures
            r == self.view().entries[i as int].user_data,
    ;

    /// Post a protocol error through entry `i`, faulting its client.
    fn post_error(&mut self, i: usize, code: u32, message: String)
        requires
            old(self).inv(),
            i < old(self).view().entries.len(),
        ensures
            final(self).inv(),
            final(self).spec_id_space_left() == old(self).spec_id_space_left(),
            final(self).view() == spec_post_error(old(self).view(), i as int, code, message@),
    ;

    /// Record that this client's connection is closed; the cascade over
    /// its entries is `cleanup_client`'s separate concern.
    fn close_client(&mut self, c: Client)
        requires
            old(self).inv(),
            c.index < old(self).view().clients.len(),
        ensures
            final(self).inv(),
            final(self).spec_id_space_left() == old(self).spec_id_space_left(),
            final(self).view().entries == old(self).view().entries,
            final(self).view().sent == old(self).view().sent,
            final(self).view().clients == old(self).view().clients.update(
                c.index as int,
                ClientView { connected: false, ..old(self).view().clients[c.index as int] },
            ),
    ;

    /// Whether this client's connection is still open.
    fn client_connected(&self, c: Client) -> (r: bool)
        requires
            self.inv(),
            c.index < self.view().clients.len(),
        ensures
            r == self.view().clients[c.index as int].connected,
    ;

    /// Whether a protocol error has been posted against this client; the
    /// external driver observes this after each dispatch cycle.
    fn client_faulted(&self, c: Client) -> (r: bool)
        requires
            self.inv(),
            c.index < self.view().clients.len(),
        ensures
            r == (self.view().clients[c.index as int].fault is Some),
    ;

    fn num_entries(&self) -> (n: usize)
        requires
            self.inv(),
        ensures
            n == self.view().entries.len(),
    ;

    fn num_clients(&self) -> (n: usize)
        requires
            self.inv(),
        ensures
            n == self.view().clients.len(),
    ;

    fn num_sent(&self) -> (n: usize)
        requires
            self.inv(),
        ensures
            n == self.view().sent.len(),
    ;

    fn id_space_left(&self) -> (r: bool)
        requires
            self.inv(),
        ensures
            r == self.spec_id_space_left(),
    ;

    fn entry_alive(&self, i: usize) -> (r: bool)
        requires
            self.inv(),
            i < self.view().entries.len(),
        ensures
            r == self.view().entries[i as int].alive,
    ;

    fn entry_version(&self, i: usize) -> (r: u32)
        requires
            self.inv(),
            i < self.view().entries.len(),
        ensures
            r == self.view().entries[i as int].version,
    ;

    fn entry_id(&self, i: usize) -> (r: u32)
        requires
            self.inv(),
            i < self.view().entries.len(),
        ensures
            r == self.view().entries[i as int].id,
    ;

    fn entry_client(&self, i: usize) -> (r: usize)
        requires
            self.inv(),
            i < self.view().entries.len(),
        ensures
            r == self.view().entries[i as int].client,
    ;

    fn entry_external(&self, i: usize) -> (r: bool)
        requires
            self.inv(),
            i < self.view().entries.len(),
        ensures
            r == self.view().entries[i as int].external,
    ;
}

/// The self-contained backend: every object's canonical state lives in
/// the backend's own storage, and ids are assigned sequentially. No entry
/// is ever externally owned here.
pub struct ServerBackend {
    pub table: EntryTable,
}

impl ServerBackend {
    /// A fresh backend with no objects, clients or traffic.
    pub fn new() -> (r: ServerBackend)
        ensures
            r.inv(),
            r.spec_id_space_left(),
            r.view().entries.len() == 0,
            r.view().clients.len() == 0,
            r.view().sent.len() == 0,
    {
        ServerBackend { table: EntryTable::new() }
    }
}

impl ObjectBackend for ServerBackend {
    open spec fn view(&self) -> BackendView {
        self.table.view()
    }

    open spec fn inv(&self) -> bool {
        &&& self.table.inv()
        &&& forall|j: int|
            0 <= j < self.table.view().entries.len()
                ==> !(#[trigger] self.table.view().entries[j]).external
    }

    open spec fn spec_id_space_left(&self) -> bool {
        self.table.spec_id_space_left()
    }

    proof fn inv_implies_wf(&self) {
        self.table.inv_implies_wf();
    }

    fn new_client(&mut self) -> (c: Client) {
        self.table.new_client()
    }

    fn create(&mut self, max_version: u32, version: u32, client: Client) -> (r: Option<usize>) {
        self.table.create(max_version, version, client)
    }

    fn lookup(&self, id: u32) -> (r: Option<usize>) {
        self.table.lookup(id)
    }

    fn mark_dead(&mut self, i: usize) -> (r: Option<DestructorCall>) {
        self.table.mark_dead(i)
    }

    fn send_event(&mut self, i: usize, msg: EventMsg) {
        self.table.send_event(i, msg)
    }

    fn dispatch_request(&self, i: usize, opcode: u16, args: Vec<u64>) -> (r: Option<RequestCall>) {
        self.table.dispatch_request(i, opcode, args)
    }

    fn assign_filter(&mut self, i: usize, f: Filter, destructor: bool) -> (ok: bool) {
        self.table.assign_filter(i, f, destructor)
    }

    fn set_user_data(&mut self, i: usize, tag: u64, value: u64) -> (ok: bool) {
        self.table.set_user_data(i, tag, value)
    }

    fn get_user_data(&self, i: usize, tag: u64) -> (r: UserDataAccess) {
        self.table.get_user_data(i, tag)
    }

    fn user_data_of(&self, i: usize) -> (r: UserData) {
        self.table.user_data_of(i)
    }

    fn post_error(&mut self, i: usize, code: u32, message: String) {
        self.table.post_error(i, code, message)
    }

    fn close_client(&mut self, c: Client) {
        self.table.close_client(c)
    }

    fn client_connected(&self, c: Client) -> (r: bool) {
        self.table.client_connected(c)
    }

    fn client_faulted(&self, c: Client) -> (r: bool) {
        self.table.client_faulted(c)
    }

    fn num_entries(&self) -> (n: usize) {
        self.table.num_entries()
    }

    fn num_clients(&self) -> (n: usize) {
        self.table.num_clients()
    }

    fn num_sent(&self) -> (n: usize) {
        self.table.num_sent()
    }

    fn id_space_left(&self) -> (r: bool) {
        self.table.id_space_left()
    }

    fn entry_alive(&self, i: usize) -> (r: bool) {
        self.table.entry_alive(i)
    }

    fn entry_version(&self, i: usize) -> (r: u32) {
        self.table.entry_version(i)
    }

    fn entry_id(&self, i: usize) -> (r: u32) {
        self.table.entry_id(i)
    }

    fn entry_client(&self, i: usize) -> (r: usize) {
        self.table.entry_client(i)
    }

    fn entry_external(&self, i: usize) -> (r: bool) {
        self.table.entry_external(i)
    }
}

/// Tear down one connection: destroy every entry the client owns and
/// collect the destructor calls the driver must now perform. The order
/// across distinct objects is the storage order of this run, which no
/// caller may rely on; per object the destructor still fires at most
/// once.
pub fn cleanup_client<B: ObjectBackend>(b: &mut B, client: Client) -> (calls: Vec<DestructorCall>)
    requires
        old(b).inv(),
    ensures
        final(b).inv(),
        final(b).view().entries.len() == old(b).view().entries.len(),
        final(b).view().clients == old(b).view().clients,
        final(b).view().sent == old(b).view().sent,
        forall|j: int|
            0 <= j < old(b).view().entries.len() && old(b).view().entries[j].client
                == client.index ==> !(#[trigger] final(b).view().entries[j]).alive,
        forall|j: int|
            0 <= j < old(b).view().entries.len() && old(b).view().entries[j].client
                != client.index
                ==> #[trigger] final(b).view().entries[j] == old(b).view().entries[j],
        forall|j: int|
            0 <= j < old(b).view().entries.len()
                ==> (#[trigger] final(b).view().entries[j]).user_data
                    == old(b).view().entries[j].user_data
                    && final(b).view().entries[j].id == old(b).view().entries[j].id
                    && final(b).view().entries[j].client == old(b).view().entries[j].client,
        calls@ == spec_cascade_calls(old(b).view().entries, client.index),
{
    let n = b.num_entries();
    let mut calls: Vec<DestructorCall> = Vec::new();
    let mut k: usize = 0;
    while k < n
        invariant
            b.inv(),
            b.spec_id_space_left() == old(b).spec_id_space_left(),
            n == old(b).view().entries.len(),
            k <= n,
            b.view().entries.len() == n,
            b.view().clients == old(b).view().clients,
            b.view().sent == old(b).view().sent,
            forall|j: int|
                0 <= j < k && old(b).view().entries[j].client == client.index
                    ==> !(#[trigger] b.view().entries[j]).alive,
            forall|j: int|
                0 <= j < old(b).view().entries.len() && old(b).view().entries[j].client
                    != client.index
                    ==> #[trigger] b.view().entries[j] == old(b).view().entries[j],
            forall|j: int|
                k <= j < old(b).view().entries.len()
                    ==> #[trigger] b.view().entries[j] == old(b).view().entries[j],
            forall|j: int|
                0 <= j < old(b).view().entries.len()
                    ==> (#[trigger] b.view().entries[j]).user_data
                        == old(b).view().entries[j].user_data
                        && b.view().entries[j].id == old(b).view().entries[j].id
                        && b.view().entries[j].client == old(b).view().entries[j].client,
            calls@ == spec_cascade_calls(old(b).view().entries.take(k as int), client.index),
        decreases n - k,
    {
        proof {
            assert(old(b).view().entries.take(k + 1 as int).drop_last() =~= old(
                b,
            ).view().entries.take(k as int));
            assert(old(b).view().entries.take(k + 1 as int).last() == old(
                b,
            ).view().entries[k as int]);
        }
        if b.entry_client(k) == client.index {
            let r = b.mark_dead(k);
            match r {
                Option::Some(c) => calls.push(c),
                Option::None => (),
            }
        }
        k = k + 1;
    }
    proof {
        assert(old(b).view().entries.take(n as int) =~= old(b).view().entries);
    }
    calls
}

} // verus!
