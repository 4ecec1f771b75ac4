//! The forwarding service: a well-known rendezvous address that, for each
//! registration it receives, creates a forwarder bound to the registrant's
//! return route.
use vstd::prelude::*;

use crate::address::{Address, AddressView, LOCAL};
use crate::message::{MessageView, TransportMessage, VERSION_1};
use crate::node::{routed, Delivery, Node, NodeView, RouteError};
use crate::mailbox::empty_mailbox;
use crate::registry::AddressInUse;
use crate::route::{Route, RouteView};

verus! {

/// The address at which `ForwardingService::create` starts the service.
pub open spec fn service_address() -> AddressView {
    (LOCAL, "forwarding_service"@)
}

/// A well-known actor that creates a forwarder for each registration.
#[non_exhaustive]
pub struct ForwardingService;

/// A forwarder created for a registration, with the place where it lives.
pub struct Registration {
    /// The new forwarder.
    pub forwarder: Forwarder,
    /// Its address.
    pub address: Address,
    /// The handle of its mailbox.
    pub handle: usize,
}

impl ForwardingService {
    /// Starts the service at the local address `"forwarding_service"` and
    /// returns it with its mailbox handle. Fails with `AddressInUse`, changing
    /// nothing, when that address is live.
    pub fn create(node: &mut Node) -> (r: Result<(ForwardingService, usize), AddressInUse>)
        requires
            old(node).wf(),
        ensures
            final(node).wf(),
            match r {
                Ok((_, h)) => {
                    &&& !old(node)@.registry.contains_key(service_address())
                    &&& h == old(node)@.mailboxes.len()
                    &&& final(node)@ == (NodeView {
                        registry: old(node)@.registry.insert(service_address(), h),
                        mailboxes: old(node)@.mailboxes.push(empty_mailbox()),
                        transports: old(node)@.transports,
                    })
                },
                Err(_) => old(node)@.registry.contains_key(service_address()) && final(node)@ == old(node)@,
            },
    {
        let a = Address::local("forwarding_service".to_owned());
        match node.start_worker(a) {
            Ok(h) => Ok((ForwardingService, h)),
            Err(e) => Err(e),
        }
    }

    /// Handles a registration `msg`: starts a forwarder bound to its return
    /// route and holding its payload, at the first of `candidates` (freshly
    /// drawn random addresses) that is not live. Fails with `AddressInUse`,
    /// changing nothing, when every candidate is live.
    pub fn handle_message(&mut self, node: &mut Node, msg: TransportMessage, candidates: &Vec<Address>) -> (r: Result<
        Registration,
        AddressInUse,
    >)
        requires
            old(node).wf(),
        ensures
            final(node).wf(),
            match r {
                Ok(reg) => {
                    &&& reg.forwarder@ == (ForwarderView { forward: msg@.ret, pending: Some(msg@.payload) })
                    &&& exists|i: int| 0 <= i < candidates@.len() && (#[trigger] candidates@[i])@ == reg.address@
                        && (forall|j: int| 0 <= j < i ==> old(node)@.registry.contains_key(#[trigger] candidates@[j]@))
                    &&& !old(node)@.registry.contains_key(reg.address@)
                    &&& reg.handle == old(node)@.mailboxes.len()
                    &&& final(node)@ == (NodeView {
                        registry: old(node)@.registry.insert(reg.address@, reg.handle),
                        mailboxes: old(node)@.mailboxes.push(empty_mailbox()),
                        transports: old(node)@.transports,
                    })
                },
                Err(_) => {
                    &&& forall|j: int| 0 <= j < candidates@.len() ==> old(node)@.registry.contains_key(#[trigger] candidates@[j]@)
                    &&& final(node)@ == old(node)@
                },
            },
    {
        match node.start_worker_at_free(candidates) {
            Ok((i, h)) => {
                let forwarder = Forwarder::new(msg.return_route, msg.payload);
                let address = candidates[i].clone();
                Ok(Registration { forwarder, address, handle: h })
            },
            Err(e) => Err(e),
        }
    }
}

/// The mathematical value of a forwarder.
pub struct ForwarderView {
    /// Where relayed traffic goes.
    pub forward: RouteView,
    /// The registration payload, until the forwarder has announced itself.
    pub pending: Option<Seq<u8>>,
}

/// An actor that relays every message it gets to one fixed route.
pub struct Forwarder {
    forward_route: Route,
    payload: Option<Vec<u8>>,
}

impl View for Forwarder {
    type V = ForwarderView;

    closed spec fn view(&self) -> ForwarderView {
        ForwarderView {
            forward: self.forward_route@,
            pending: match self.payload {
                Some(p) => Some(p@),
                None => None,
            },
        }
    }
}

/// The announcement a forwarder at `own` sends when it starts.
pub open spec fn announcement(f: ForwarderView, own: AddressView) -> MessageView {
    MessageView { version: VERSION_1, onward: f.forward, ret: seq![own], payload: f.pending.unwrap() }
}

/// An envelope relayed by a forwarder: bound for `forward`, otherwise as it came.
pub open spec fn relayed(forward: RouteView, msg: MessageView) -> MessageView {
    MessageView { onward: forward, ..msg }
}

impl Forwarder {
    /// A forwarder bound to `forward_route` that has yet to announce
    /// `registration_payload`.
    pub fn new(forward_route: Route, registration_payload: Vec<u8>) -> (r: Forwarder)
        ensures
            r@ == (ForwarderView { forward: forward_route@, pending: Some(registration_payload@) }),
    {
        Forwarder { forward_route, payload: Some(registration_payload) }
    }

    /// The route that relayed traffic takes.
    pub fn forward_route(&self) -> (r: &Route)
        ensures
            r@ == self@.forward,
    {
        &self.forward_route
    }

    /// True until the forwarder has announced itself.
    pub fn is_pending(&self) -> (r: bool)
        ensures
            r == self@.pending is Some,
    {
        self.payload.is_some()
    }

    /// The one-time setup of the forwarder living at `own`: sends the
    /// registration payload to the forward route, with `own` as the return
    /// route, and clears it. Must run once, before any relayed message.
    pub fn initialize(&mut self, node: &mut Node, own: &Address) -> (r: Result<Delivery, RouteError>)
        requires
            old(self)@.pending is Some,
            old(node).wf(),
        ensures
            final(node).wf(),
            final(self)@ == (ForwarderView { forward: old(self)@.forward, pending: None }),
            routed(old(node)@, announcement(old(self)@, own@), final(node)@, r),
    {
        let payload = match self.payload.take() {
            Some(p) => p,
            None => Vec::new(),
        };
        let msg = TransportMessage::v1(self.forward_route.clone(), Route::single(own.clone()), payload);
        node.route(msg)
    }

    /// Relays `msg`: its onward route becomes the forward route; its return
    /// route and payload are untouched.
    pub fn relay(&self, msg: TransportMessage) -> (r: TransportMessage)
        ensures
            r@ == relayed(self@.forward, msg@),
    {
        let mut msg = msg;
        msg.onward_route = self.forward_route.clone();
        msg
    }

    /// Handles a message: routes it, relayed to the forward route.
    pub fn handle_message(&mut self, node: &mut Node, msg: TransportMessage) -> (r: Result<Delivery, RouteError>)
        requires
            old(node).wf(),
        ensures
            final(node).wf(),
            final(self)@ == old(self)@,
            routed(old(node)@, relayed(old(self)@.forward, msg@), final(node)@, r),
    {
        let m = self.relay(msg);
        node.route(m)
    }
}

} // verus!
