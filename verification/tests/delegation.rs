use wayland_server::backend::{cleanup_client, ObjectBackend};
use wayland_server::delegating::DelegatingBackend;
use wayland_server::filter::Filter;
use wayland_server::message::{EventMsg, InterfaceDesc};
use wayland_server::resource::Resource;

fn iface() -> InterfaceDesc {
    InterfaceDesc { name: String::from("wl_surface"), max_version: 4 }
}

#[test]
fn externally_created_objects_appear_and_report_liveness() {
    let mut b = DelegatingBackend::new();
    let c = b.new_client();
    let i = b.external_created(0xff00_0001, 3, c).unwrap();
    let h = Resource::wrap(i);
    assert!(h.is_alive(&b));
    assert!(h.is_external(&b));
    assert_eq!(h.version(&b), 3);
    assert_eq!(h.id(&b), 0xff00_0001);
    // the owner destroys the id: liveness reads through as dead
    b.external_destroyed(0xff00_0001);
    assert!(!h.is_alive(&b));
    assert_eq!(h.version(&b), 0);
}

#[test]
fn external_destroy_cascades_the_destructor_exactly_once() {
    let mut b = DelegatingBackend::new();
    let c = b.new_client();
    let i = b.external_created(41, 1, c).unwrap();
    let h = Resource::wrap(i);
    assert!(h.assign_destructor(&mut b, Filter::new(9)));
    let first = b.external_destroyed(41).unwrap();
    assert_eq!(first.token, 9);
    assert_eq!(first.object_index, i);
    // unknown or already-dead ids are expected races: silent no-ops
    assert!(b.external_destroyed(41).is_none());
    assert!(b.external_destroyed(999).is_none());
}

#[test]
fn duplicate_live_external_id_is_rejected() {
    let mut b = DelegatingBackend::new();
    let c = b.new_client();
    assert!(b.external_created(41, 1, c).is_some());
    assert!(b.external_created(41, 2, c).is_none());
    // once the first is dead, the id may come back as a fresh entry
    b.external_destroyed(41);
    assert!(b.external_created(41, 2, c).is_some());
}

#[test]
fn recreated_id_yields_a_distinct_entry() {
    let mut b = DelegatingBackend::new();
    let c = b.new_client();
    let i1 = b.external_created(42, 1, c).unwrap();
    let old = Resource::wrap(i1);
    b.external_destroyed(42);
    let i2 = b.external_created(42, 1, c).unwrap();
    let new = Resource::wrap(i2);
    // ids coincide, entries do not: the handles are not equal
    assert_eq!(old.id(&b), new.id(&b));
    assert!(!old.equals(&new));
    assert!(old != new);
    assert!(!old.is_alive(&b));
    assert!(new.is_alive(&b));
    // lookup resolves the id to the new entry only
    assert_eq!(b.lookup(42), Some(i2));
}

// the same scenario, driven only through the trait, runs on either backend
fn scenario<B: ObjectBackend>(b: &mut B) -> (u64, usize, bool) {
    let c = b.new_client();
    let h = Resource::create(b, &iface(), 2, c).unwrap();
    h.set_user_data(b, 1, 11);
    h.assign_destructor(b, Filter::new(13));
    h.send(b, EventMsg { opcode: 0, since: 1, args: vec![] });
    let d = b.mark_dead(h.index).unwrap();
    let calls = cleanup_client(b, c);
    (d.token, b.num_sent(), calls.is_empty())
}

#[test]
fn both_backends_share_one_contract() {
    let mut s = wayland_server::backend::ServerBackend::new();
    let mut d = DelegatingBackend::new();
    assert_eq!(scenario(&mut s), (13, 1, true));
    assert_eq!(scenario(&mut d), (13, 1, true));
}

#[test]
fn sent_queue_records_object_opcode_and_arguments() {
    let mut b = DelegatingBackend::new();
    let c = b.new_client();
    let i = b.external_created(7, 4, c).unwrap();
    let h = Resource::wrap(i);
    h.send(&mut b, EventMsg { opcode: 3, since: 4, args: vec![2, 9, 11] });
    assert_eq!(b.num_sent(), 1);
    assert_eq!(b.table.sent_object_id(0), 7);
    assert_eq!(b.table.sent_opcode(0), 3);
    assert_eq!(b.table.sent_args(0), vec![2, 9, 11]);
}

#[test]
fn adopted_objects_are_fully_managed() {
    let mut b = DelegatingBackend::new();
    let c = b.new_client();
    let i = b.register_managed(0xff00_0002, 3, c).unwrap();
    let h = Resource::wrap(i);
    assert!(h.is_alive(&b));
    assert!(!h.is_external(&b));
    assert_eq!(h.version(&b), 3);
    assert_eq!(h.id(&b), 0xff00_0002);
    // unlike an externally owned entry, an adopted one takes user data
    assert!(h.set_user_data(&mut b, 4, 44));
    // and its id is claimed like any other: a duplicate is rejected
    assert!(b.register_managed(0xff00_0002, 1, c).is_none());
    assert!(b.external_created(0xff00_0002, 1, c).is_none());
    // its lifetime is governed here, through the ordinary destroy path
    b.mark_dead(h.index);
    assert!(!h.is_alive(&b));
    assert!(b.lookup(0xff00_0002).is_none());
}
