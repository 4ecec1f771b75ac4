use ockam_node::address::Address;
use ockam_node::forwarder::{ForwardingService, Forwarder};
use ockam_node::message::TransportMessage;
use ockam_node::node::{Delivery, Node, RouteError};
use ockam_node::profile::{Entity, Handle, Profile, ProfileIdentifier};
use ockam_node::registry::AddressInUse;
use ockam_node::relay::{Action, Event, Failure, Outcome, Relay, RelayState};
use ockam_node::route::Route;

fn addr(s: &str) -> Address {
    Address::local(s.to_string())
}

fn names(r: &Route) -> Vec<String> {
    r.hops.iter().map(|a| a.inner.clone()).collect()
}

fn one(s: &str) -> Route {
    Route::single(addr(s))
}

#[test]
fn relay_lifecycle() {
    let mut r = Relay::new(false);
    assert_eq!(r.state, RelayState::Starting);
    assert_eq!(r.step(Event::BeginMessage), Action::Reject);
    assert_eq!(r.step(Event::BeginInit), Action::Run);
    assert_eq!(r.step(Event::BeginMessage), Action::Reject);
    assert_eq!(r.step(Event::BeginInit), Action::Reject);
    assert_eq!(r.step(Event::InitDone(true)), Action::Continue);
    assert_eq!(r.step(Event::BeginMessage), Action::Run);
    assert_eq!(r.state, RelayState::Handling);
    assert_eq!(r.step(Event::BeginMessage), Action::Reject);
    assert_eq!(r.step(Event::MessageDone(Outcome::Done)), Action::Continue);
    assert_eq!(r.step(Event::BeginMessage), Action::Run);
    assert_eq!(r.step(Event::MessageDone(Outcome::DecodeFailed)), Action::Report(Failure::Decode));
    assert_eq!(r.step(Event::BeginMessage), Action::Run);
    assert_eq!(r.step(Event::MessageDone(Outcome::HandlerFailed)), Action::Report(Failure::Handler));
    assert_eq!(r.state, RelayState::Idle);
    assert_eq!(r.step(Event::Stop), Action::Shutdown(None));
    assert!(r.is_stopped());
    assert_eq!(r.step(Event::Stop), Action::Reject);
    assert_eq!(r.step(Event::BeginMessage), Action::Reject);
}

#[test]
fn relay_failed_init_never_runs() {
    let mut r = Relay::new(false);
    r.step(Event::BeginInit);
    assert_eq!(r.step(Event::InitDone(false)), Action::Shutdown(Some(Failure::Initialization)));
    assert_eq!(r.state, RelayState::Stopped);
    assert_eq!(r.step(Event::BeginMessage), Action::Reject);
    assert_eq!(r.step(Event::BeginInit), Action::Reject);
}

#[test]
fn relay_fatal_handler_error_stops() {
    let mut r = Relay::new(true);
    r.step(Event::BeginInit);
    r.step(Event::InitDone(true));
    r.step(Event::BeginMessage);
    assert_eq!(r.step(Event::MessageDone(Outcome::DecodeFailed)), Action::Report(Failure::Decode));
    r.step(Event::BeginMessage);
    assert_eq!(r.step(Event::MessageDone(Outcome::HandlerFailed)), Action::Shutdown(Some(Failure::Handler)));
    assert!(r.is_stopped());
}

#[test]
fn relay_stop_waits_for_running_handler() {
    let mut r = Relay::new(false);
    r.step(Event::BeginInit);
    r.step(Event::InitDone(true));
    r.step(Event::BeginMessage);
    assert_eq!(r.step(Event::Stop), Action::Deferred);
    assert_eq!(r.state, RelayState::Handling);
    assert!(r.stop_requested);
    assert_eq!(r.step(Event::MessageDone(Outcome::Done)), Action::Shutdown(None));
    assert!(r.is_stopped());
}

#[test]
fn relay_stop_before_start() {
    let mut r = Relay::new(false);
    assert_eq!(r.step(Event::Stop), Action::Shutdown(None));
    assert_eq!(r.step(Event::BeginInit), Action::Reject);
}

#[test]
fn forwarding_service_rendezvous() {
    let mut n = Node::new();
    let r_h = n.start_worker(addr("R")).unwrap();
    let c_h = n.start_worker(addr("C")).unwrap();
    let (mut svc, svc_h) = ForwardingService::create(&mut n).unwrap();
    assert!(matches!(ForwardingService::create(&mut n), Err(AddressInUse)));

    n.route(TransportMessage::v1(one("forwarding_service"), one("R"), b"register".to_vec())).unwrap();
    let reg_msg = n.receive(svc_h).unwrap();
    let cands = vec![addr("R"), addr("f0a1")];
    let reg = svc.handle_message(&mut n, reg_msg, &cands).ok().unwrap();
    assert_eq!(reg.address.inner, "f0a1");
    assert_eq!(n.lookup(&addr("f0a1")), Some(reg.handle));
    let mut f = reg.forwarder;
    assert!(f.is_pending());
    assert_eq!(names(f.forward_route()), vec!["R"]);

    assert!(matches!(f.initialize(&mut n, &reg.address), Ok(Delivery::Local(x)) if x == r_h));
    assert!(!f.is_pending());
    let hello = n.receive(r_h).unwrap();
    assert_eq!(hello.payload, b"register".to_vec());
    assert_eq!(names(&hello.return_route), vec!["f0a1"]);

    n.route(TransportMessage::v1(one("f0a1"), one("C"), b"from C".to_vec())).unwrap();
    let at_f = n.receive(reg.handle).unwrap();
    assert!(matches!(f.handle_message(&mut n, at_f), Ok(Delivery::Local(x)) if x == r_h));
    let at_r = n.receive(r_h).unwrap();
    assert_eq!(at_r.payload, b"from C".to_vec());
    assert_eq!(names(&at_r.onward_route), vec!["R"]);
    assert_eq!(names(&at_r.return_route), vec!["C"]);

    let reply = TransportMessage::v1(at_r.return_route.clone(), one("R"), b"to C".to_vec());
    assert!(matches!(n.route(reply), Ok(Delivery::Local(x)) if x == c_h));
    assert_eq!(n.receive(c_h).unwrap().payload, b"to C".to_vec());
}

#[test]
fn forwarding_service_all_candidates_taken() {
    let mut n = Node::new();
    n.start_worker(addr("x")).unwrap();
    let (mut svc, _) = ForwardingService::create(&mut n).unwrap();
    let m = TransportMessage::v1(one("forwarding_service"), one("R"), vec![1]);
    assert!(matches!(svc.handle_message(&mut n, m, &vec![addr("x")]), Err(AddressInUse)));
    assert_eq!(n.mailbox_count(), 2);
}

#[test]
fn forwarder_relays_to_unreachable() {
    let mut n = Node::new();
    let f = Forwarder::new(one("gone"), vec![]);
    let m = TransportMessage::v1(one("f"), one("C"), b"p".to_vec());
    let relayed = f.relay(m.clone());
    assert_eq!(names(&relayed.onward_route), vec!["gone"]);
    assert_eq!(names(&relayed.return_route), vec!["C"]);
    let mut f = f;
    assert!(matches!(f.handle_message(&mut n, m), Err(RouteError::Unreachable)));
}

#[test]
fn profile_entity_and_cast() {
    let mut n = Node::new();
    let h = n.start_worker(addr("entity")).unwrap();
    let p = Profile::new(ProfileIdentifier("P1234".to_string()), Handle::new(addr("entity")));
    assert_eq!(p.identifier().0, "P1234");
    let e: Entity = p.entity();
    assert_eq!(e.id.unwrap().0, "P1234");
    assert_eq!(e.handle.address.inner, "entity");
    let e2 = Entity::from(p.clone());
    assert_eq!(e2.handle.address.inner, "entity");
    assert!(matches!(p.cast(&mut n, &addr("app"), b"req".to_vec()), Ok(Delivery::Local(x)) if x == h));
    let got = n.receive(h).unwrap();
    assert_eq!(got.payload, b"req".to_vec());
    assert_eq!(names(&got.return_route), vec!["app"]);
}
