use wayland_server::backend::{cleanup_client, ObjectBackend, ServerBackend};
use wayland_server::filter::Filter;
use wayland_server::message::{EventMsg, InterfaceDesc};
use wayland_server::resource::Resource;
use wayland_server::user_data::UserDataAccess;

fn iface(max: u32) -> InterfaceDesc {
    InterfaceDesc { name: String::from("wl_thing"), max_version: max }
}

fn fresh_object(b: &mut ServerBackend, version: u32) -> Resource {
    let c = b.new_client();
    Resource::create(b, &iface(4), version, c).unwrap()
}

#[test]
fn clone_independence() {
    let mut b = ServerBackend::new();
    let h = fresh_object(&mut b, 3);
    let h2 = h.clone();
    assert!(h.is_alive(&b));
    assert!(h2.is_alive(&b));
    b.mark_dead(h.index);
    assert!(!h.is_alive(&b));
    assert!(!h2.is_alive(&b));
    // liveness is monotone: destroying again never resurrects
    b.mark_dead(h.index);
    assert!(!h.is_alive(&b));
    assert!(!h2.is_alive(&b));
}

#[test]
fn version_gating() {
    let mut b = ServerBackend::new();
    let h = fresh_object(&mut b, 3);
    // an event introduced in version 4 must not be sent on a version-3 object
    assert!(!h.can_send(&b, 4));
    // at the object's own version or below, sending is allowed and delivers
    assert!(h.can_send(&b, 3));
    assert_eq!(b.num_sent(), 0);
    h.send(&mut b, EventMsg { opcode: 1, since: 3, args: vec![10, 20] });
    assert_eq!(b.num_sent(), 1);
    h.send(&mut b, EventMsg { opcode: 2, since: 1, args: vec![] });
    assert_eq!(b.num_sent(), 2);
}

#[test]
fn dead_object_send_is_silent() {
    let mut b = ServerBackend::new();
    let h = fresh_object(&mut b, 3);
    h.send(&mut b, EventMsg { opcode: 1, since: 1, args: vec![] });
    assert_eq!(b.num_sent(), 1);
    b.mark_dead(h.index);
    // on a dead object any event may be sent, and none transmits a byte
    assert!(h.can_send(&b, 4));
    h.send(&mut b, EventMsg { opcode: 3, since: 4, args: vec![7] });
    assert_eq!(b.num_sent(), 1);
}

#[test]
fn destructor_fires_exactly_once() {
    let mut b = ServerBackend::new();
    let h = fresh_object(&mut b, 1);
    assert!(h.assign_destructor(&mut b, Filter::new(55)));
    let first = b.mark_dead(h.index);
    let call = first.expect("first destruction must yield the destructor call");
    assert_eq!(call.token, 55);
    assert_eq!(call.object_index, h.index);
    let second = b.mark_dead(h.index);
    assert!(second.is_none());
}

#[test]
fn destructor_absent_when_never_registered() {
    let mut b = ServerBackend::new();
    let h = fresh_object(&mut b, 1);
    assert!(b.mark_dead(h.index).is_none());
}

#[test]
fn handle_equality_is_entry_identity() {
    let mut b = ServerBackend::new();
    let h = fresh_object(&mut b, 2);
    let id = h.id(&b);
    let i = b.lookup(id).unwrap();
    let j = b.lookup(id).unwrap();
    let g = Resource::wrap(i);
    let g2 = Resource::wrap(j);
    assert!(g.equals(&g2));
    assert!(g.equals(&h));
    assert_eq!(g, g2);
}

#[test]
fn same_client_requires_both_alive() {
    let mut b = ServerBackend::new();
    let c = b.new_client();
    let h1 = Resource::create(&mut b, &iface(4), 1, c).unwrap();
    let h2 = Resource::create(&mut b, &iface(4), 1, c).unwrap();
    assert!(h1.same_client_as(&b, &h2));
    assert!(h2.same_client_as(&b, &h1));
    b.mark_dead(h2.index);
    // created on the identical client, yet dead on one side: false
    assert!(!h1.same_client_as(&b, &h2));
    assert!(!h2.same_client_as(&b, &h1));
}

#[test]
fn distinct_clients_never_compare_same() {
    let mut b = ServerBackend::new();
    let c1 = b.new_client();
    let c2 = b.new_client();
    let h1 = Resource::create(&mut b, &iface(4), 1, c1).unwrap();
    let h2 = Resource::create(&mut b, &iface(4), 1, c2).unwrap();
    assert!(!h1.same_client_as(&b, &h2));
}

#[test]
fn user_data_survives_death() {
    let mut b = ServerBackend::new();
    let h = fresh_object(&mut b, 1);
    assert!(h.set_user_data(&mut b, 7, 99));
    b.mark_dead(h.index);
    assert_eq!(b.get_user_data(h.index, 7), UserDataAccess::Value(99));
    // the slot is shared: a second handle reads the same payload
    let h2 = h.clone();
    assert_eq!(h2.user_data(&b).get(7), UserDataAccess::Value(99));
}

#[test]
fn user_data_mismatch_is_distinct_from_unset() {
    let mut b = ServerBackend::new();
    let h = fresh_object(&mut b, 1);
    assert_eq!(b.get_user_data(h.index, 7), UserDataAccess::Unset);
    assert!(h.set_user_data(&mut b, 7, 99));
    assert_eq!(b.get_user_data(h.index, 8), UserDataAccess::Mismatch);
    assert_eq!(b.get_user_data(h.index, 7), UserDataAccess::Value(99));
}

#[test]
fn user_data_set_only_once() {
    let mut b = ServerBackend::new();
    let h = fresh_object(&mut b, 1);
    assert!(h.set_user_data(&mut b, 7, 99));
    assert!(!h.set_user_data(&mut b, 7, 100));
    assert_eq!(b.get_user_data(h.index, 7), UserDataAccess::Value(99));
}

#[test]
fn create_rejects_excess_version() {
    let mut b = ServerBackend::new();
    let c = b.new_client();
    assert!(Resource::create(&mut b, &iface(4), 5, c).is_none());
    assert!(Resource::create(&mut b, &iface(4), 4, c).is_some());
}

#[test]
fn version_reads_zero_on_dead_objects() {
    let mut b = ServerBackend::new();
    let h = fresh_object(&mut b, 3);
    assert_eq!(h.version(&b), 3);
    b.mark_dead(h.index);
    assert_eq!(h.version(&b), 0);
}

#[test]
fn client_handle_absent_once_dead() {
    let mut b = ServerBackend::new();
    let c = b.new_client();
    let h = Resource::create(&mut b, &iface(4), 1, c).unwrap();
    assert_eq!(h.client(&b), Some(c));
    b.mark_dead(h.index);
    assert_eq!(h.client(&b), None);
}

#[test]
fn lookup_misses_after_death() {
    let mut b = ServerBackend::new();
    let h = fresh_object(&mut b, 1);
    let id = h.id(&b);
    assert!(b.lookup(id).is_some());
    b.mark_dead(h.index);
    assert!(b.lookup(id).is_none());
}

#[test]
fn post_error_faults_the_owning_client() {
    let mut b = ServerBackend::new();
    let c = b.new_client();
    let h = Resource::create(&mut b, &iface(4), 1, c).unwrap();
    assert!(!b.client_faulted(c));
    h.post_error(&mut b, 3, String::from("bad argument"));
    assert!(b.client_faulted(c));
}

#[test]
fn dead_object_posts_no_error() {
    let mut b = ServerBackend::new();
    let c = b.new_client();
    let h = Resource::create(&mut b, &iface(4), 1, c).unwrap();
    b.mark_dead(h.index);
    h.post_error(&mut b, 3, String::from("late"));
    assert!(!b.client_faulted(c));
}

#[test]
fn disconnect_cascades_mark_dead_over_owned_entries() {
    let mut b = ServerBackend::new();
    let c1 = b.new_client();
    let c2 = b.new_client();
    let h1 = Resource::create(&mut b, &iface(4), 1, c1).unwrap();
    let h2 = Resource::create(&mut b, &iface(4), 1, c1).unwrap();
    let h3 = Resource::create(&mut b, &iface(4), 1, c2).unwrap();
    assert!(h1.assign_destructor(&mut b, Filter::new(1)));
    assert!(h2.assign_destructor(&mut b, Filter::new(2)));
    let calls = cleanup_client(&mut b, c1);
    assert_eq!(calls.len(), 2);
    let mut tokens: Vec<u64> = calls.iter().map(|d| d.token).collect();
    tokens.sort();
    assert_eq!(tokens, vec![1, 2]);
    assert!(!h1.is_alive(&b));
    assert!(!h2.is_alive(&b));
    assert!(h3.is_alive(&b));
    // the cascade is idempotent like mark_dead itself
    let again = cleanup_client(&mut b, c1);
    assert_eq!(again.len(), 0);
}

#[test]
fn closing_a_connection_is_recorded() {
    let mut b = ServerBackend::new();
    let c = b.new_client();
    assert!(b.client_connected(c));
    let h = Resource::create(&mut b, &iface(4), 1, c).unwrap();
    h.post_error(&mut b, 1, String::from("violation"));
    b.close_client(c);
    cleanup_client(&mut b, c);
    assert!(!b.client_connected(c));
    assert!(b.client_faulted(c));
    assert!(!h.is_alive(&b));
}

#[test]
fn make_child_for_inherits_the_client() {
    let mut b = ServerBackend::new();
    let c = b.new_client();
    let parent = Resource::create(&mut b, &iface(4), 3, c).unwrap();
    let child = parent.make_child_for(&mut b, &iface(4), 2).unwrap();
    assert!(child.same_client_as(&b, &parent));
    assert_eq!(child.client(&b), Some(c));
    assert!(!child.equals(&parent));
    b.mark_dead(parent.index);
    assert!(parent.make_child_for(&mut b, &iface(4), 2).is_none());
}

#[test]
fn make_child_for_yields_a_fresh_managed_entry() {
    let mut b = ServerBackend::new();
    let c = b.new_client();
    let parent = Resource::create(&mut b, &iface(4), 3, c).unwrap();
    let child = parent.make_child_for(&mut b, &iface(4), 2).unwrap();
    assert!(child.is_alive(&b));
    assert_eq!(child.version(&b), 2);
    assert!(!child.is_external(&b));
    assert_ne!(child.id(&b), parent.id(&b));
    // the child starts with an empty user-data slot and no filters
    assert_eq!(b.get_user_data(child.index, 1), UserDataAccess::Unset);
    assert!(child.set_user_data(&mut b, 1, 5));
    assert!(child.assign(&mut b, Filter::new(3)));
    // an over-version child request yields nothing and changes nothing
    let before = b.num_entries();
    assert!(parent.make_child_for(&mut b, &iface(4), 5).is_none());
    assert_eq!(b.num_entries(), before);
}
