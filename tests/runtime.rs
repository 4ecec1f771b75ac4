use ockam_node::address::{Address, LOCAL};
use ockam_node::mailbox::{Mailbox, MailboxClosed};
use ockam_node::message::TransportMessage;
use ockam_node::node::{Delivery, Node, RouteError};
use ockam_node::registry::{AddressInUse, Registry};
use ockam_node::route::Route;

fn addr(s: &str) -> Address {
    Address::local(s.to_string())
}

fn route_of(names: &[&str]) -> Route {
    let mut r = Route::new();
    for n in names {
        r.append(addr(n));
    }
    r
}

fn names(r: &Route) -> Vec<String> {
    r.hops.iter().map(|a| a.inner.clone()).collect()
}

fn msg(onward: &[&str], ret: &[&str], payload: &[u8]) -> TransportMessage {
    TransportMessage::v1(route_of(onward), route_of(ret), payload.to_vec())
}

#[test]
fn mailbox_is_fifo() {
    let mut m = Mailbox::new();
    for p in [b"one".to_vec(), b"two".to_vec(), b"three".to_vec()] {
        assert_eq!(m.send(TransportMessage::v1(Route::new(), Route::new(), p)), Ok(()));
    }
    assert_eq!(m.len(), 3);
    assert_eq!(m.receive().unwrap().payload, b"one".to_vec());
    assert_eq!(m.receive().unwrap().payload, b"two".to_vec());
    assert_eq!(m.receive().unwrap().payload, b"three".to_vec());
    assert!(m.receive().is_none());
}

#[test]
fn mailbox_closed_rejects_send() {
    let mut m = Mailbox::new();
    m.send(msg(&["a"], &[], b"x")).unwrap();
    m.close();
    assert!(!m.is_open());
    assert_eq!(m.len(), 0);
    assert_eq!(m.send(msg(&["a"], &[], b"y")), Err(MailboxClosed));
    assert!(m.receive().is_none());
}

#[test]
fn registry_rejects_second_registration() {
    let mut r = Registry::new();
    assert_eq!(r.register(addr("a"), 0), Ok(()));
    assert_eq!(r.register(addr("a"), 1), Err(AddressInUse));
    assert_eq!(r.lookup(&addr("a")), Some(0));
    assert_eq!(r.register(Address::new(1, "a".to_string()), 2), Ok(()));
    assert_eq!(r.lookup(&Address::new(1, "a".to_string())), Some(2));
}

#[test]
fn registry_lookup_twice_same_handle() {
    let mut r = Registry::new();
    r.register(addr("a"), 4).unwrap();
    r.register(addr("b"), 7).unwrap();
    let first = r.lookup(&addr("b"));
    let second = r.lookup(&addr("b"));
    assert_eq!(first, Some(7));
    assert_eq!(first, second);
    assert_eq!(r.lookup(&addr("c")), None);
}

#[test]
fn registry_remove_then_reuse() {
    let mut r = Registry::new();
    r.register(addr("a"), 0).unwrap();
    r.register(addr("b"), 1).unwrap();
    assert_eq!(r.remove(&addr("a")), Some(0));
    assert_eq!(r.remove(&addr("a")), None);
    assert!(!r.contains(&addr("a")));
    assert_eq!(r.lookup(&addr("b")), Some(1));
    assert_eq!(r.register(addr("a"), 5), Ok(()));
    assert_eq!(r.lookup(&addr("a")), Some(5));
}

#[test]
fn node_duplicate_worker_fails_first_stays() {
    let mut n = Node::new();
    let h = n.start_worker(addr("w")).unwrap();
    assert_eq!(n.start_worker(addr("w")), Err(AddressInUse));
    assert_eq!(n.lookup(&addr("w")), Some(h));
    assert!(matches!(n.route(msg(&["w"], &[], b"p")), Ok(Delivery::Local(x)) if x == h));
    assert_eq!(n.receive(h).unwrap().payload, b"p".to_vec());
}

#[test]
fn route_to_unknown_is_unreachable() {
    let mut n = Node::new();
    let h = n.start_worker(addr("w")).unwrap();
    n.add_transport(1);
    assert!(matches!(n.route(msg(&["nobody"], &["w"], b"p")), Err(RouteError::Unreachable)));
    assert!(matches!(
        n.route(TransportMessage::v1(Route::single(Address::new(2, "x".to_string())), Route::new(), vec![])),
        Err(RouteError::Unreachable)
    ));
    assert!(matches!(n.route(msg(&[], &["w"], b"p")), Err(RouteError::Unreachable)));
    assert!(n.receive(h).is_none());
}

#[test]
fn route_to_transport_hands_back_envelope() {
    let mut n = Node::new();
    n.add_transport(1);
    let remote = Address::new(1, "127.0.0.1:4000".to_string());
    let mut onward = Route::single(remote);
    onward.append(addr("echoer"));
    let m = TransportMessage::v1(onward, route_of(&["app"]), b"hello".to_vec());
    match n.route(m) {
        Ok(Delivery::Transport(tt, m)) => {
            assert_eq!(tt, 1);
            assert_eq!(m.onward_route.len(), 2);
            assert_eq!(m.onward_route.next().unwrap().tt, 1);
            assert_eq!(m.payload, b"hello".to_vec());
        }
        _ => panic!("expected a transport hand-off"),
    }
}

#[test]
fn local_hops_round_trip() {
    let mut n = Node::new();
    let hops = ["h1", "h2", "h3"];
    let handles: Vec<usize> = hops.iter().map(|h| n.start_worker(addr(h)).unwrap()).collect();
    let mut m = msg(&hops, &["origin"], b"data");
    for (i, h) in handles.iter().enumerate() {
        assert!(matches!(n.route(m), Ok(Delivery::Local(x)) if x == *h));
        m = n.receive(*h).unwrap();
        assert_eq!(m.onward_route.next().unwrap().inner, hops[i]);
        assert!(m.pass_hop());
    }
    assert!(m.onward_route.is_empty());
    assert_eq!(names(&m.return_route), vec!["h3", "h2", "h1", "origin"]);
    assert_eq!(m.payload, b"data".to_vec());
    assert!(!m.pass_hop());
}

#[test]
fn echo_scenario() {
    let mut n = Node::new();
    let a = n.start_worker(addr("A")).unwrap();
    let e = n.start_worker(addr("echoer")).unwrap();
    n.route(msg(&["echoer"], &["A"], b"hi")).unwrap();
    let incoming = n.receive(e).unwrap();
    assert_eq!(incoming.sender().unwrap().inner, "A");
    let reply = TransportMessage::v1(incoming.return_route.clone(), route_of(&["echoer"]), incoming.payload.clone());
    assert!(matches!(n.route(reply), Ok(Delivery::Local(x)) if x == a));
    let back = n.receive(a).unwrap();
    assert_eq!(back.payload, b"hi".to_vec());
    assert_eq!(names(&back.return_route), vec!["echoer"]);
}

#[test]
fn stop_worker_closes_mailbox() {
    let mut n = Node::new();
    let h = n.start_worker(addr("w")).unwrap();
    n.route(msg(&["w"], &[], b"queued")).unwrap();
    assert_eq!(n.stop_worker(&addr("w")), Some(h));
    assert_eq!(n.send_to(h, msg(&["w"], &[], b"late")), Err(MailboxClosed));
    assert!(n.receive(h).is_none());
    assert!(matches!(n.route(msg(&["w"], &[], b"later")), Err(RouteError::Unreachable)));
    assert_eq!(n.stop_worker(&addr("w")), None);
    let h2 = n.start_worker(addr("w")).unwrap();
    assert_ne!(h, h2);
    assert_eq!(n.mailbox_count(), 2);
}

#[test]
fn start_at_first_free_candidate() {
    let mut n = Node::new();
    n.start_worker(addr("r1")).unwrap();
    n.start_worker(addr("r2")).unwrap();
    let cands = vec![addr("r1"), addr("r2"), addr("r3"), addr("r4")];
    assert_eq!(n.start_worker_at_free(&cands), Ok((2, 2)));
    assert_eq!(n.lookup(&addr("r3")), Some(2));
    assert_eq!(n.lookup(&addr("r4")), None);
    let taken = vec![addr("r1"), addr("r3")];
    assert_eq!(n.start_worker_at_free(&taken), Err(AddressInUse));
    assert_eq!(n.mailbox_count(), 3);
}

#[test]
fn route_operations() {
    let mut r = route_of(&["b", "c"]);
    r.prepend(addr("a"));
    assert_eq!(names(&r), vec!["a", "b", "c"]);
    let c = r.clone();
    assert_eq!(r.step().unwrap().inner, "a");
    assert_eq!(names(&r), vec!["b", "c"]);
    assert_eq!(names(&c), vec!["a", "b", "c"]);
    assert_eq!(r.len(), 2);
    let mut e = Route::new();
    assert!(e.step().is_none());
    assert!(e.next().is_none());
    assert!(addr("x").same(&addr("x")));
    assert!(!addr("x").same(&Address::new(1, "x".to_string())));
    assert!(addr("x").is_local());
    assert_eq!(addr("x").tt, LOCAL);
}

#[test]
fn shutdown_stops_every_actor() {
    let mut n = Node::new();
    let a = n.start_worker(addr("a")).unwrap();
    let b = n.start_worker(addr("b")).unwrap();
    n.route(msg(&["a"], &[], b"x")).unwrap();
    n.shutdown();
    assert_eq!(n.mailbox_count(), 2);
    assert_eq!(n.lookup(&addr("a")), None);
    assert_eq!(n.lookup(&addr("b")), None);
    assert!(n.receive(a).is_none());
    assert_eq!(n.send_to(b, msg(&["b"], &[], b"y")), Err(MailboxClosed));
    assert!(matches!(n.route(msg(&["a"], &[], b"z")), Err(RouteError::Unreachable)));
}

#[test]
fn envelope_clone_and_sender() {
    let m = msg(&["x", "y"], &["s", "t"], b"body");
    let c = m.clone();
    assert_eq!(c.version, 1);
    assert_eq!(names(&c.onward_route), vec!["x", "y"]);
    assert_eq!(c.sender().unwrap().inner, "s");
    assert!(msg(&["x"], &[], b"").sender().is_none());
}
