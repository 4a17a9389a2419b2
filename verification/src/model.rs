//! Mathematical model of a backend.
//!
//! Every backend, self-contained or delegating, abstracts to one
//! `BackendView`: the sequence of entries ever created, the client table,
//! and the sequence of events accepted for transmission. The spec
//! functions here are the single definition of what each lifecycle
//! operation does to that view; the executable backends promise in their
//! contracts to match them, and the proof functions at the end state the
//! laws the model obeys.

use vstd::prelude::*;
use crate::client::ClientState;
use crate::entry::Entry;
use crate::filter::{DestructorCall, Filter};
use crate::message::Transmission;

verus! {

/// Abstract record of one event accepted for transmission.
#[verifier::ext_equal]
pub ghost struct TxView {
    pub object_id: u32,
    pub opcode: u16,
    pub args: Seq<u64>,
}

/// Abstract record of one posted protocol error.
#[verifier::ext_equal]
pub ghost struct FaultView {
    pub code: u32,
    pub message: Seq<char>,
}

/// Abstract state of one client connection.
#[verifier::ext_equal]
pub ghost struct ClientView {
    pub connected: bool,
    pub fault: Option<FaultView>,
}

/// Abstract state of a whole backend.
#[verifier::ext_equal]
pub ghost struct BackendView {
    pub entries: Seq<Entry>,
    pub clients: Seq<ClientView>,
    pub sent: Seq<TxView>,
}

/// Abstraction of one stored client record.
pub open spec fn client_view(c: ClientState) -> ClientView {
    ClientView {
        connected: c.connected,
        fault: match c.fault {
            Option::None => None,
            Option::Some(f) => Some(FaultView { code: f.code, message: f.message@ }),
        },
    }
}

/// Abstraction of one stored transmission record.
pub open spec fn tx_view(t: Transmission) -> TxView {
    TxView { object_id: t.object_id, opcode: t.opcode, args: t.args@ }
}

/// Well-formedness of a backend view:
/// every entry names an existing client, at most one live entry carries a
/// given id, and a live entry has never fired its destructor.
pub open spec fn wf(v: BackendView) -> bool {
    &&& forall|i: int|
        0 <= i < v.entries.len() ==> (#[trigger] v.entries[i]).client < v.clients.len()
    &&& forall|i: int, j: int|
        0 <= i < v.entries.len() && 0 <= j < v.entries.len()
            && (#[trigger] v.entries[i]).alive && (#[trigger] v.entries[j]).alive
            && v.entries[i].id == v.entries[j].id ==> i == j
    &&& forall|i: int|
        0 <= i < v.entries.len() && (#[trigger] v.entries[i]).alive
            ==> !v.entries[i].destructor_done
}

/// Effect of destroying entry `i`: the first call flips `alive` and yields
/// the registered destructor call, if any; on an already-dead entry it is
/// a no-op and yields nothing.
pub open spec fn spec_mark_dead(v: BackendView, i: int) -> (BackendView, Option<DestructorCall>) {
    let e = v.entries[i];
    if !e.alive {
        (v, None)
    } else {
        let dead = Entry { alive: false, destructor_done: true, ..e };
        let v2 = BackendView { entries: v.entries.update(i, dead), ..v };
        let call = match e.destructor_filter {
            Option::None => None,
            Option::Some(f) => Some(
                DestructorCall { token: f.token, object_index: i as usize, object_id: e.id },
            ),
        };
        (v2, call)
    }
}

/// Effect of sending an event through entry `i`: a live entry appends one
/// transmission; a dead entry changes nothing at all.
pub open spec fn spec_send(v: BackendView, i: int, opcode: u16, args: Seq<u64>) -> BackendView {
    let e = v.entries[i];
    if e.alive {
        BackendView {
            sent: v.sent.push(TxView { object_id: e.id, opcode, args }),
            ..v
        }
    } else {
        v
    }
}

/// Effect of binding a filter to entry `i` (`destructor` selects which of
/// the two slots): binding succeeds only while the slot is empty; a second
/// binding fails and leaves the first filter in place.
pub open spec fn spec_assign(v: BackendView, i: int, f: Filter, destructor: bool) -> (
    BackendView,
    bool,
) {
    let e = v.entries[i];
    let slot = if destructor {
        e.destructor_filter
    } else {
        e.request_filter
    };
    if slot is Some {
        (v, false)
    } else {
        let e2 = if destructor {
            Entry { destructor_filter: Some(f), ..e }
        } else {
            Entry { request_filter: Some(f), ..e }
        };
        (BackendView { entries: v.entries.update(i, e2), ..v }, true)
    }
}

/// Effect of posting a protocol error through entry `i`: a live entry
/// marks its owning client as faulted, unless an earlier fault already
/// stands; a dead entry changes nothing.
pub open spec fn spec_post_error(v: BackendView, i: int, code: u32, message: Seq<char>) -> BackendView {
    let e = v.entries[i];
    if !e.alive {
        v
    } else {
        let c = v.clients[e.client as int];
        if c.fault is Some {
            v
        } else {
            let c2 = ClientView { fault: Some(FaultView { code, message }), ..c };
            BackendView { clients: v.clients.update(e.client as int, c2), ..v }
        }
    }
}

/// The destructor calls a disconnect cascade over `entries` owes for the
/// entries `client` owns: one call per owned live entry with a registered
/// destructor filter, in storage order.
pub open spec fn spec_cascade_calls(entries: Seq<Entry>, client: usize) -> Seq<DestructorCall>
    decreases entries.len(),
{
    if entries.len() == 0 {
        Seq::empty()
    } else {
        let prefix = spec_cascade_calls(entries.drop_last(), client);
        let e = entries.last();
        if e.client == client && e.alive {
            match e.destructor_filter {
                Option::None => prefix,
                Option::Some(f) => prefix.push(
                    DestructorCall {
                        token: f.token,
                        object_index: (entries.len() - 1) as usize,
                        object_id: e.id,
                    },
                ),
            }
        } else {
            prefix
        }
    }
}

/// Destruction is visible to every handle at once and liveness is
/// monotone: destroying entry `i` leaves it dead, and no entry whose flag
/// was already false ever turns live again.
pub proof fn lemma_liveness_monotone(v: BackendView, i: int)
    requires
        0 <= i < v.entries.len(),
    ensures
        !spec_mark_dead(v, i).0.entries[i].alive,
        forall|j: int|
            0 <= j < v.entries.len() && !v.entries[j].alive
                ==> !(#[trigger] spec_mark_dead(v, i).0.entries[j]).alive,
{
}

/// The destructor filter fires at most once: destroying an entry twice
/// yields a call the first time at most, and never the second time.
pub proof fn lemma_destructor_at_most_once(v: BackendView, i: int)
    requires
        0 <= i < v.entries.len(),
    ensures
        spec_mark_dead(spec_mark_dead(v, i).0, i).1 is None,
        spec_mark_dead(spec_mark_dead(v, i).0, i).0 == spec_mark_dead(v, i).0,
{
}

/// At most one live entry carries a given id, so two lookups of the same
/// id against the same state name the same entry.
pub proof fn lemma_lookup_unique(v: BackendView, id: u32, i: int, j: int)
    requires
        wf(v),
        0 <= i < v.entries.len(),
        0 <= j < v.entries.len(),
        v.entries[i].alive,
        v.entries[j].alive,
        v.entries[i].id == id,
        v.entries[j].id == id,
    ensures
        i == j,
{
}

/// User data survives death: destroying an entry changes no entry's
/// user-data slot, so a payload attached before `mark_dead` reads back
/// unchanged afterwards.
pub proof fn lemma_user_data_survives_death(v: BackendView, i: int)
    requires
        0 <= i < v.entries.len(),
    ensures
        forall|j: int|
            0 <= j < v.entries.len()
                ==> (#[trigger] spec_mark_dead(v, i).0.entries[j]).user_data
                    == v.entries[j].user_data,
{
}

/// A second binding of the same slot fails and does not disturb the
/// filter installed by the first binding.
pub proof fn lemma_second_assign_rejected(v: BackendView, i: int, f: Filter, g: Filter, destructor: bool)
    requires
        0 <= i < v.entries.len(),
        (if destructor {
            v.entries[i].destructor_filter
        } else {
            v.entries[i].request_filter
        }) is None,
    ensures
        !spec_assign(spec_assign(v, i, f, destructor).0, i, g, destructor).1,
        spec_assign(spec_assign(v, i, f, destructor).0, i, g, destructor).0
            == spec_assign(v, i, f, destructor).0,
        (if destructor {
            spec_assign(v, i, f, destructor).0.entries[i].destructor_filter
        } else {
            spec_assign(v, i, f, destructor).0.entries[i].request_filter
        }) == Some(f),
{
}

/// A dead object never observes outgoing traffic: sending on a dead entry
/// transmits nothing and changes nothing.
pub proof fn lemma_dead_send_silent(v: BackendView, i: int, opcode: u16, args: Seq<u64>)
    requires
        0 <= i < v.entries.len(),
        !v.entries[i].alive,
    ensures
        spec_send(v, i, opcode, args) == v,
        spec_send(v, i, opcode, args).sent == v.sent,
{
}

/// An entry's identity is fixed at creation: neither destruction nor a
/// filter binding changes its id, version, owning client or external
/// ownership, and a filter binding does not change liveness either —
/// only `spec_mark_dead` moves the liveness flag, and only true to
/// false.
pub proof fn lemma_entry_identity_fixed(v: BackendView, i: int, f: Filter, destructor: bool)
    requires
        0 <= i < v.entries.len(),
    ensures
        forall|j: int|
            0 <= j < v.entries.len() ==> {
                let e0 = #[trigger] v.entries[j];
                let e1 = spec_mark_dead(v, i).0.entries[j];
                let e2 = spec_assign(v, i, f, destructor).0.entries[j];
                &&& e1.id == e0.id
                &&& e1.version == e0.version
                &&& e1.client == e0.client
                &&& e1.external == e0.external
                &&& e2.id == e0.id
                &&& e2.version == e0.version
                &&& e2.client == e0.client
                &&& e2.external == e0.external
                &&& e2.alive == e0.alive
            },
{
}

/// Version gating. An event introduced at version `since` is admissible
/// on entry `i` exactly when the entry is dead or `since` does not
/// exceed its negotiated version: an admissible send on a live entry
/// transmits exactly the event, a send on a dead entry transmits
/// nothing and changes nothing, and no send ever touches an entry or a
/// client. The remaining case — a live entry and `since` above its
/// version — is the programmer fault of the protocol, which
/// `Resource::send` excludes by precondition and `Resource::can_send`
/// tests at run time.
pub proof fn lemma_version_gating(v: BackendView, i: int, opcode: u16, since: u32, args: Seq<u64>)
    requires
        0 <= i < v.entries.len(),
    ensures
        v.entries[i].alive && since <= v.entries[i].version ==> spec_send(
            v, i, opcode, args,
        ).sent == v.sent.push(TxView { object_id: v.entries[i].id, opcode, args }),
        !v.entries[i].alive ==> spec_send(v, i, opcode, args) == v,
        spec_send(v, i, opcode, args).entries == v.entries,
        spec_send(v, i, opcode, args).clients == v.clients,
{
}

/// A live entry that satisfies the version gate transmits exactly its
/// event, appended to what was already sent.
pub proof fn lemma_live_send_transmits(v: BackendView, i: int, opcode: u16, args: Seq<u64>)
    requires
        0 <= i < v.entries.len(),
        v.entries[i].alive,
    ensures
        spec_send(v, i, opcode, args).sent
            == v.sent.push(TxView { object_id: v.entries[i].id, opcode, args }),
        spec_send(v, i, opcode, args).entries == v.entries,
{
}

} // verus!
