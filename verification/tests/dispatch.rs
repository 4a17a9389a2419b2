use wayland_server::backend::{ObjectBackend, ServerBackend};
use wayland_server::filter::Filter;
use wayland_server::message::InterfaceDesc;
use wayland_server::resource::Resource;

fn iface() -> InterfaceDesc {
    InterfaceDesc { name: String::from("wl_seat"), max_version: 6 }
}

#[test]
fn requests_route_to_the_registered_filter() {
    let mut b = ServerBackend::new();
    let c = b.new_client();
    let h = Resource::create(&mut b, &iface(), 5, c).unwrap();
    // nobody listens yet: the decoded request is silently dropped
    assert!(b.dispatch_request(h.index, 0, vec![1]).is_none());
    assert!(h.assign(&mut b, Filter::new(77)));
    let call = b.dispatch_request(h.index, 2, vec![4, 5]).unwrap();
    assert_eq!(call.token, 77);
    assert_eq!(call.object_index, h.index);
    assert_eq!(call.object_id, h.id(&b));
    assert_eq!(call.opcode, 2);
    assert_eq!(call.args, vec![4, 5]);
}

#[test]
fn second_assign_fails_and_keeps_the_first_filter() {
    let mut b = ServerBackend::new();
    let c = b.new_client();
    let h = Resource::create(&mut b, &iface(), 5, c).unwrap();
    assert!(h.assign(&mut b, Filter::new(77)));
    assert!(!h.assign(&mut b, Filter::new(88)));
    // future invocations still reach the first registered filter
    let call = b.dispatch_request(h.index, 0, vec![]).unwrap();
    assert_eq!(call.token, 77);
}

#[test]
fn assign_mono_wraps_a_plain_handler() {
    let mut b = ServerBackend::new();
    let c = b.new_client();
    let h = Resource::create(&mut b, &iface(), 5, c).unwrap();
    assert!(h.assign_mono(&mut b, 31));
    let call = b.dispatch_request(h.index, 1, vec![]).unwrap();
    assert_eq!(call.token, 31);
    assert!(!h.assign_mono(&mut b, 32));
}

#[test]
fn dead_objects_dispatch_nothing() {
    let mut b = ServerBackend::new();
    let c = b.new_client();
    let h = Resource::create(&mut b, &iface(), 5, c).unwrap();
    assert!(h.assign(&mut b, Filter::new(77)));
    b.mark_dead(h.index);
    assert!(b.dispatch_request(h.index, 0, vec![]).is_none());
}

#[test]
fn request_and_destructor_filters_are_independent_slots() {
    let mut b = ServerBackend::new();
    let c = b.new_client();
    let h = Resource::create(&mut b, &iface(), 5, c).unwrap();
    assert!(h.assign(&mut b, Filter::new(1)));
    assert!(h.assign_destructor(&mut b, Filter::new(2)));
    let call = b.dispatch_request(h.index, 0, vec![]).unwrap();
    assert_eq!(call.token, 1);
    let d = b.mark_dead(h.index).unwrap();
    assert_eq!(d.token, 2);
}
