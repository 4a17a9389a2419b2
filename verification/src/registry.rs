//! Executable storage shared by both backends.
//!
//! `EntryTable` owns the canonical state of every object of one
//! connection set: the append-only entry arena, the client table, and the
//! queue of events accepted for transmission. Every operation's contract
//! is stated against the abstract `BackendView` of `crate::model`, so the
//! backends built on top of this table expose one identical contract.

use vstd::prelude::*;
use crate::client::{Client, ClientState, Fault};
use crate::entry::Entry;
use crate::filter::{DestructorCall, Filter, RequestCall};
use crate::message::{EventMsg, Transmission};
use crate::model::{
    client_view, spec_assign, spec_mark_dead, spec_post_error, spec_send, tx_view, wf,
    BackendView, ClientView, TxView,
};
use crate::user_data::{UdSlot, UserData, UserDataAccess};

verus! {

/// Object ids are 32-bit on the wire; the sequential allocator stops at
/// this bound instead of wrapping into ids that may still be live.
pub const ID_LIMIT: u64 = 0x1_0000_0000;

/// Canonical storage for one connection set's objects, clients and
/// outgoing traffic. Entry storage is append-only: a destroyed object's
/// record stays, dead, so its user data remains readable and a recycled
/// id always yields a distinct entry.
pub struct EntryTable {
    pub entries: Vec<Entry>,
    pub clients: Vec<ClientState>,
    pub sent: Vec<Transmission>,
    pub next_id: u64,
}

impl EntryTable {
    /// Abstraction of the whole table.
    pub open spec fn view(&self) -> BackendView {
        BackendView {
            entries: self.entries@,
            clients: self.clients@.map(|j: int, c: ClientState| client_view(c)),
            sent: self.sent@.map(|j: int, t: Transmission| tx_view(t)),
        }
    }

    /// Internal invariant: the view is well formed, and every stored id
    /// lies below the sequential allocator's cursor, so freshly allocated
    /// ids collide with nothing.
    pub open spec fn inv(&self) -> bool {
        &&& wf(self.view())
        &&& self.next_id <= ID_LIMIT
        &&& forall|j: int|
            0 <= j < self.entries@.len() ==> (#[trigger] self.entries@[j]).id < self.next_id
    }

    /// Whether the sequential allocator can still hand out an id.
    pub open spec fn spec_id_space_left(&self) -> bool {
        self.next_id < ID_LIMIT
    }

    pub proof fn inv_implies_wf(&self)
        requires
            self.inv(),
        ensures
            wf(self.view()),
    {
    }

    /// An empty table: no objects, no clients, nothing sent.
    pub fn new() -> (r: EntryTable)
        ensures
            r.inv(),
            r.spec_id_space_left(),
            r.view().entries.len() == 0,
            r.view().clients.len() == 0,
            r.view().sent.len() == 0,
    {
        // id 0 is the wire protocol's null object: never allocated
        EntryTable { entries: Vec::new(), clients: Vec::new(), sent: Vec::new(), next_id: 1 }
    }

    /// Register a new connection.
    pub fn new_client(&mut self) -> (c: Client)
        requires
            old(self).inv(),
        ensures
            final(self).inv(),
            final(self).spec_id_space_left() == old(self).spec_id_space_left(),
            c.index == old(self).clients@.len(),
            final(self).view().clients == old(self).view().clients.push(
                ClientView { connected: true, fault: None },
            ),
            final(self).view().entries == old(self).view().entries,
            final(self).view().sent == old(self).view().sent,
    {
        let idx = self.clients.len();
        self.clients.push(ClientState { connected: true, fault: None });
        proof {
            assert(self.view().clients =~= old(self).view().clients.push(
                ClientView { connected: true, fault: None },
            ));
        }
        Client { index: idx }
    }

    /// Create an object: allocate a fresh id and append a live entry,
    /// provided the negotiated version does not exceed the interface's
    /// maximum and the id space is not exhausted.
    pub fn create(&mut self, max_version: u32, version: u32, client: Client) -> (r: Option<usize>)
        requires
            old(self).inv(),
            client.index < old(self).clients@.len(),
        ensures
            final(self).inv(),
            final(self).view().clients == old(self).view().clients,
            final(self).view().sent == old(self).view().sent,
            version > max_version || !old(self).spec_id_space_left() ==> r is None
                && final(self).view() == old(self).view(),
            version <= max_version && old(self).spec_id_space_left() ==> {
                &&& r == Some(old(self).entries@.len() as usize)
                &&& final(self).view().entries.len() == old(self).view().entries.len() + 1
                &&& forall|j: int|
                    0 <= j < old(self).entries@.len()
                        ==> #[trigger] final(self).view().entries[j] == old(self).view().entries[j]
                &&& final(self).view().entries.last() == (Entry {
                    id: final(self).view().entries.last().id,
                    version,
                    alive: true,
                    external: false,
                    client: client.index,
                    user_data: UserData { slot: None },
                    request_filter: None,
                    destructor_filter: None,
                    destructor_done: false,
                })
                &&& forall|j: int|
                    0 <= j < old(self).entries@.len()
                        ==> (#[trigger] final(self).view().entries[j]).id
                            != final(self).view().entries.last().id
            },
    {
        if version > max_version {
            return None;
        }
        if self.next_id >= ID_LIMIT {
            return None;
        }
        let id: u32 = self.next_id as u32;
        let idx = self.entries.len();
        let e = Entry {
            id,
            version,
            alive: true,
            external: false,
            client: client.index,
            user_data: UserData::new(),
            request_filter: None,
            destructor_filter: None,
            destructor_done: false,
        };
        self.entries.push(e);
        self.next_id = self.next_id + 1;
        Some(idx)
    }

    /// Find the live entry carrying `id`. A miss means "no such object":
    /// the caller treats it as a protocol-level client error, never as a
    /// fault of this library.
    pub fn lookup(&self, id: u32) -> (r: Option<usize>)
        ensures
            match r {
                Option::Some(i) => i < self.entries@.len() && self.entries@[i as int].alive
                    && self.entries@[i as int].id == id,
                Option::None => forall|j: int|
                    0 <= j < self.entries@.len()
                        ==> !((#[trigger] self.entries@[j]).alive && self.entries@[j].id == id),
            },
    {
        let n = self.entries.len();
        let mut k: usize = 0;
        while k < n
            invariant
                n == self.entries@.len(),
                k <= n,
                forall|j: int|
                    0 <= j < k ==> !((#[trigger] self.entries@[j]).alive
                        && self.entries@[j].id == id),
            decreases n - k,
        {
            let e = self.entries[k];
            if e.alive && e.id == id {
                return Some(k);
            }
            k = k + 1;
        }
        None
    }

    /// Destroy entry `i`. Idempotent: the first call flips the liveness
    /// flag and yields the registered destructor call, if any; a later
    /// call is a no-op that yields nothing.
    pub fn mark_dead(&mut self, i: usize) -> (r: Option<DestructorCall>)
        requires
            old(self).inv(),
            i < old(self).entries@.len(),
        ensures
            final(self).inv(),
            final(self).spec_id_space_left() == old(self).spec_id_space_left(),
            final(self).view() == spec_mark_dead(old(self).view(), i as int).0,
            r == spec_mark_dead(old(self).view(), i as int).1,
    {
        let e = self.entries[i];
        if !e.alive {
            return None;
        }
        let e2 = Entry { alive: false, destructor_done: true, ..e };
        self.entries[i] = e2;
        proof {
            assert(self.view() =~~= spec_mark_dead(old(self).view(), i as int).0);
        }
        match e.destructor_filter {
            Option::None => None,
            Option::Some(f) => Some(
                DestructorCall { token: f.token, object_index: i, object_id: e.id },
            ),
        }
    }

    /// Send an event through entry `i`. A dead entry delivers nothing,
    /// silently: races between a client-side destroy and a queued event
    /// are expected and must not surface as faults. On a live entry the
    /// caller has already satisfied the version gate (a violation is a
    /// programmer error, excluded by contract).
    pub fn send_event(&mut self, i: usize, msg: EventMsg)
        requires
            old(self).inv(),
            i < old(self).entries@.len(),
            old(self).entries@[i as int].alive ==> msg.since <= old(self).entries@[i as int].version,
        ensures
            final(self).inv(),
            final(self).spec_id_space_left() == old(self).spec_id_space_left(),
            final(self).view() == spec_send(old(self).view(), i as int, msg.opcode, msg.args@),
    {
        let e = self.entries[i];
        if !e.alive {
            return;
        }
        let tx = Transmission { object_id: e.id, opcode: msg.opcode, args: msg.args };
        self.sent.push(tx);
        proof {
            assert(self.view().sent =~= old(self).view().sent.push(
                TxView { object_id: e.id, opcode: msg.opcode, args: msg.args@ },
            ));
            assert(self.view() =~~= spec_send(old(self).view(), i as int, msg.opcode, msg.args@));
        }
    }

    /// Route an incoming request on entry `i`: yield the invocation of
    /// the registered request filter, or nothing when the entry is dead
    /// or nobody listens yet (both silently dropped, mirroring setup
    /// races). The table itself does not change.
    pub fn dispatch_request(&self, i: usize, opcode: u16, args: Vec<u64>) -> (r: Option<
        RequestCall,
    >)
        requires
            i < self.entries@.len(),
        ensures
            match r {
                Option::Some(c) => self.entries@[i as int].alive
                    && self.entries@[i as int].request_filter == Some(Filter { token: c.token })
                    && c.object_index == i && c.object_id == self.entries@[i as int].id
                    && c.opcode == opcode && c.args@ == args@,
                Option::None => !(self.entries@[i as int].alive
                    && self.entries@[i as int].request_filter is Some),
            },
    {
        let e = self.entries[i];
        if !e.alive {
            return None;
        }
        match e.request_filter {
            Option::None => None,
            Option::Some(f) => Some(
                RequestCall {
                    token: f.token,
                    object_index: i,
                    object_id: e.id,
                    opcode,
                    args,
                },
            ),
        }
    }

    /// Bind a filter to entry `i` (`destructor` selects the slot). Each
    /// slot is bound at most once: a second binding fails and leaves the
    /// first filter untouched.
    pub fn assign_filter(&mut self, i: usize, f: Filter, destructor: bool) -> (ok: bool)
        requires
            old(self).inv(),
            i < old(self).entries@.len(),
        ensures
            final(self).inv(),
            final(self).spec_id_space_left() == old(self).spec_id_space_left(),
            final(self).view() == spec_assign(old(self).view(), i as int, f, destructor).0,
            ok == spec_assign(old(self).view(), i as int, f, destructor).1,
    {
        let e = self.entries[i];
        let already = if destructor {
            e.destructor_filter.is_some()
        } else {
            e.request_filter.is_some()
        };
        if already {
            return false;
        }
        let e2 = if destructor {
            Entry { destructor_filter: Some(f), ..e }
        } else {
            Entry { request_filter: Some(f), ..e }
        };
        self.entries[i] = e2;
        proof {
            assert(self.view() =~~= spec_assign(old(self).view(), i as int, f, destructor).0);
        }
        true
    }

    /// Attach a payload to entry `i`'s user-data slot. Works on dead
    /// entries (the slot outlives the liveness flag) but only once per
    /// entry; externally owned entries reject attachment by contract.
    pub fn set_user_data(&mut self, i: usize, tag: u64, value: u64) -> (ok: bool)
        requires
            old(self).inv(),
            i < old(self).entries@.len(),
            !old(self).entries@[i as int].external,
        ensures
            final(self).inv(),
            final(self).spec_id_space_left() == old(self).spec_id_space_left(),
            final(self).view().clients == old(self).view().clients,
            final(self).view().sent == old(self).view().sent,
            old(self).entries@[i as int].user_data.slot is None ==> ok
                && final(self).view().entries == old(self).view().entries.update(
                i as int,
                Entry {
                    user_data: UserData { slot: Some(UdSlot { tag, value }) },
                    ..old(self).entries@[i as int]
                },
            ),
            old(self).entries@[i as int].user_data.slot is Some ==> !ok
                && final(self).view() == old(self).view(),
    {
        let e = self.entries[i];
        let mut e2 = e;
        let ok = e2.user_data.set(tag, value);
        if ok {
            self.entries[i] = e2;
            proof {
                assert(self.view().entries =~= old(self).view().entries.update(
                    i as int,
                    Entry {
                        user_data: UserData { slot: Some(UdSlot { tag, value }) },
                        ..old(self).entries@[i as int]
                    },
                ));
            }
        }
        ok
    }

    /// Read entry `i`'s user-data slot with a type tag. Liveness is
    /// irrelevant: destructor filters and stragglers may still read
    /// accumulated state after death.
    pub fn get_user_data(&self, i: usize, tag: u64) -> (r: UserDataAccess)
        requires
            i < self.entries@.len(),
        ensures
            r == self.entries@[i as int].user_data.spec_get(tag),
    {
        self.entries[i].user_data.get(tag)
    }

    /// The whole user-data slot of entry `i`, as every handle shares it.
    pub fn user_data_of(&self, i: usize) -> (r: UserData)
        requires
            i < self.entries@.len(),
        ensures
            r == self.entries@[i as int].user_data,
    {
        self.entries[i].user_data
    }

    /// Post a protocol error through entry `i`: fatal to the owning
    /// client, whose fault flag is set unless an earlier fault stands.
    /// A dead entry posts nothing.
    pub fn post_error(&mut self, i: usize, code: u32, message: String)
        requires
            old(self).inv(),
            i < old(self).entries@.len(),
        ensures
            final(self).inv(),
            final(self).spec_id_space_left() == old(self).spec_id_space_left(),
            final(self).view() == spec_post_error(old(self).view(), i as int, code, message@),
    {
        let e = self.entries[i];
        if !e.alive {
            return;
        }
        let c = e.client;
        assert(c < self.clients@.len());
        if self.clients[c].fault.is_some() {
            proof {
                assert(self.view() =~~= spec_post_error(
                    old(self).view(), i as int, code, message@,
                ));
            }
            return;
        }
        let conn = self.clients[c].connected;
        self.clients[c] = ClientState { connected: conn, fault: Some(Fault { code, message }) };
        proof {
            assert(self.view() =~~= spec_post_error(old(self).view(), i as int, code, message@));
        }
    }

    /// Record that this client's connection is closed. The caller (the
    /// external driver) cascades `mark_dead` over the owned entries
    /// separately; entry records themselves stay, as always.
    pub fn close_client(&mut self, c: Client)
        requires
            old(self).inv(),
            c.index < old(self).clients@.len(),
        ensures
            final(self).inv(),
            final(self).spec_id_space_left() == old(self).spec_id_space_left(),
            final(self).view().entries == old(self).view().entries,
            final(self).view().sent == old(self).view().sent,
            final(self).view().clients == old(self).view().clients.update(
                c.index as int,
                ClientView { connected: false, ..old(self).view().clients[c.index as int] },
            ),
    {
        let fault = match &self.clients[c.index].fault {
            Option::Some(f) => Some(Fault { code: f.code, message: f.message.clone() }),
            Option::None => None,
        };
        self.clients[c.index] = ClientState { connected: false, fault };
        proof {
            assert(self.view().clients =~= old(self).view().clients.update(
                c.index as int,
                ClientView { connected: false, ..old(self).view().clients[c.index as int] },
            ));
        }
    }

    /// Whether this client's connection is still open.
    pub fn client_connected(&self, c: Client) -> (r: bool)
        requires
            c.index < self.clients@.len(),
        ensures
            r == self.view().clients[c.index as int].connected,
    {
        self.clients[c.index].connected
    }

    /// Whether a protocol error has been posted against this client.
    pub fn client_faulted(&self, c: Client) -> (r: bool)
        requires
            c.index < self.clients@.len(),
        ensures
            r == (self.view().clients[c.index as int].fault is Some),
    {
        self.clients[c.index].fault.is_some()
    }

    /// Append an entry under an id the external transport owner chose,
    /// flagged externally owned or library managed as `external` says.
    /// Rejected when a live entry already carries that id; otherwise the
    /// sequential allocator is moved past the foreign id.
    fn register_with_id(&mut self, id: u32, version: u32, client: Client, external: bool) -> (r:
        Option<usize>)
        requires
            old(self).inv(),
            client.index < old(self).clients@.len(),
        ensures
            final(self).inv(),
            final(self).view().clients == old(self).view().clients,
            final(self).view().sent == old(self).view().sent,
            (exists|j: int|
                0 <= j < old(self).entries@.len() && (#[trigger] old(self).entries@[j]).alive
                    && old(self).entries@[j].id == id) ==> r is None && final(self).view()
                == old(self).view(),
            (forall|j: int|
                0 <= j < old(self).entries@.len()
                    ==> !((#[trigger] old(self).entries@[j]).alive && old(self).entries@[j].id
                    == id)) ==> r == Some(old(self).entries@.len() as usize)
                && final(self).view().entries == old(self).view().entries.push(
                Entry {
                    id,
                    version,
                    alive: true,
                    external,
                    client: client.index,
                    user_data: UserData { slot: None },
                    request_filter: None,
                    destructor_filter: None,
                    destructor_done: false,
                },
            ),
    {
        match self.lookup(id) {
            Option::Some(_) => None,
            Option::None => {
                let idx = self.entries.len();
                self.entries.push(
                    Entry {
                        id,
                        version,
                        alive: true,
                        external,
                        client: client.index,
                        user_data: UserData::new(),
                        request_filter: None,
                        destructor_filter: None,
                        destructor_done: false,
                    },
                );
                if self.next_id <= id as u64 {
                    self.next_id = id as u64 + 1;
                }
                Some(idx)
            },
        }
    }

    /// Register an object the external transport owner instantiated and
    /// still owns: the entry is flagged externally owned, so it rejects
    /// user-data attachment and its state mirrors the owner's reports.
    pub fn register_external(&mut self, id: u32, version: u32, client: Client) -> (r: Option<
        usize,
    >)
        requires
            old(self).inv(),
            client.index < old(self).clients@.len(),
        ensures
            final(self).inv(),
            final(self).view().clients == old(self).view().clients,
            final(self).view().sent == old(self).view().sent,
            (exists|j: int|
                0 <= j < old(self).entries@.len() && (#[trigger] old(self).entries@[j]).alive
                    && old(self).entries@[j].id == id) ==> r is None && final(self).view()
                == old(self).view(),
            (forall|j: int|
                0 <= j < old(self).entries@.len()
                    ==> !((#[trigger] old(self).entries@[j]).alive && old(self).entries@[j].id
                    == id)) ==> r == Some(old(self).entries@.len() as usize)
                && final(self).view().entries == old(self).view().entries.push(
                Entry {
                    id,
                    version,
                    alive: true,
                    external: true,
                    client: client.index,
                    user_data: UserData { slot: None },
                    request_filter: None,
                    destructor_filter: None,
                    destructor_done: false,
                },
            ),
    {
        self.register_with_id(id, version, client, true)
    }

    /// Adopt an object created under an owner-assigned id as a fully
    /// library-managed entry: user data may be attached and liveness is
    /// tracked here, exactly as for an entry `create` made.
    pub fn register_managed(&mut self, id: u32, version: u32, client: Client) -> (r: Option<
        usize,
    >)
        requires
            old(self).inv(),
            client.index < old(self).clients@.len(),
        ensures
            final(self).inv(),
            final(self).view().clients == old(self).view().clients,
            final(self).view().sent == old(self).view().sent,
            (exists|j: int|
                0 <= j < old(self).entries@.len() && (#[trigger] old(self).entries@[j]).alive
                    && old(self).entries@[j].id == id) ==> r is None && final(self).view()
                == old(self).view(),
            (forall|j: int|
                0 <= j < old(self).entries@.len()
                    ==> !((#[trigger] old(self).entries@[j]).alive && old(self).entries@[j].id
                    == id)) ==> r == Some(old(self).entries@.len() as usize)
                && final(self).view().entries == old(self).view().entries.push(
                Entry {
                    id,
                    version,
                    alive: true,
                    external: false,
                    client: client.index,
                    user_data: UserData { slot: None },
                    request_filter: None,
                    destructor_filter: None,
                    destructor_done: false,
                },
            ),
    {
        self.register_with_id(id, version, client, false)
    }

    pub fn num_entries(&self) -> (n: usize)
        ensures
            n == self.entries@.len(),
    {
        self.entries.len()
    }

    pub fn num_clients(&self) -> (n: usize)
        ensures
            n == self.clients@.len(),
    {
        self.clients.len()
    }

    pub fn num_sent(&self) -> (n: usize)
        ensures
            n == self.view().sent.len(),
    {
        self.sent.len()
    }

    pub fn id_space_left(&self) -> (r: bool)
        ensures
            r == self.spec_id_space_left(),
    {
        self.next_id < ID_LIMIT
    }

    pub fn entry_alive(&self, i: usize) -> (r: bool)
        requires
            i < self.entries@.len(),
        ensures
            r == self.entries@[i as int].alive,
    {
        self.entries[i].alive
    }

    pub fn entry_version(&self, i: usize) -> (r: u32)
        requires
            i < self.entries@.len(),
        ensures
            r == self.entries@[i as int].version,
    {
        self.entries[i].version
    }

    pub fn entry_id(&self, i: usize) -> (r: u32)
        requires
            i < self.entries@.len(),
        ensures
            r == self.entries@[i as int].id,
    {
        self.entries[i].id
    }

    pub fn entry_client(&self, i: usize) -> (r: usize)
        requires
            i < self.entries@.len(),
        ensures
            r == self.entries@[i as int].client,
    {
        self.entries[i].client
    }

    pub fn entry_external(&self, i: usize) -> (r: bool)
        requires
            i < self.entries@.len(),
        ensures
            r == self.entries@[i as int].external,
    {
        self.entries[i].external
    }

    /// Object id of transmission `k`, for the driver draining the queue.
    pub fn sent_object_id(&self, k: usize) -> (r: u32)
        requires
            k < self.view().sent.len(),
        ensures
            r == self.view().sent[k as int].object_id,
    {
        self.sent[k].object_id
    }

    /// Opcode of transmission `k`.
    pub fn sent_opcode(&self, k: usize) -> (r: u16)
        requires
            k < self.view().sent.len(),
        ensures
            r == self.view().sent[k as int].opcode,
    {
        self.sent[k].opcode
    }

    /// Arguments of transmission `k`, copied out for the driver to
    /// serialize.
    pub fn sent_args(&self, k: usize) -> (r: Vec<u64>)
        requires
            k < self.view().sent.len(),
        ensures
            r@ == self.view().sent[k as int].args,
    {
        let n = self.sent[k].args.len();
        let mut r: Vec<u64> = Vec::new();
        let mut j: usize = 0;
        while j < n
            invariant
                k < self.sent@.len(),
                n == self.sent@[k as int].args@.len(),
                j <= n,
                r@ == self.sent@[k as int].args@.take(j as int),
            decreases n - j,
        {
            let a = self.sent[k].args[j];
            r.push(a);
            proof {
                assert(self.sent@[k as int].args@.take(j + 1 as int) =~= self.sent@[
                    k as int].args@.take(j as int).push(a));
            }
            j = j + 1;
        }
        proof {
            assert(self.sent@[k as int].args@.take(n as int) =~= self.sent@[k as int].args@);
        }
        r
    }
}

} // verus!
