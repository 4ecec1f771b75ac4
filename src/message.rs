//! The transport message envelope.
use vstd::prelude::*;

use crate::address::Address;
use crate::route::{Route, RouteView};

verus! {

/// Version tag written by `TransportMessage::v1`.
pub const VERSION_1: u8 = 1;

/// The mathematical value of an envelope: its four wire-relevant fields.
pub struct MessageView {
    pub version: u8,
    pub onward: RouteView,
    pub ret: RouteView,
    pub payload: Seq<u8>,
}

/// A unit of transfer: where it is still headed, the way back to its
/// originator, and an opaque payload.
pub struct TransportMessage {
    pub version: u8,
    pub onward_route: Route,
    pub return_route: Route,
    pub payload: Vec<u8>,
}

impl View for TransportMessage {
    type V = MessageView;

    open spec fn view(&self) -> MessageView {
        MessageView {
            version: self.version,
            onward: self.onward_route@,
            ret: self.return_route@,
            payload: self.payload@,
        }
    }
}

impl TransportMessage {
    /// A version 1 envelope with the given routes and payload.
    pub fn v1(onward_route: Route, return_route: Route, payload: Vec<u8>) -> (r: TransportMessage)
        ensures
            r@ == (MessageView {
                version: VERSION_1,
                onward: onward_route@,
                ret: return_route@,
                payload: payload@,
            }),
    {
        TransportMessage { version: VERSION_1, onward_route, return_route, payload }
    }

    /// The address that sent this envelope: the first hop of its return route.
    pub fn sender(&self) -> (r: Option<&Address>)
        ensures
            self@.ret.len() == 0 ==> r is None,
            self@.ret.len() > 0 ==> r is Some && r->0@ == self@.ret[0],
    {
        self.return_route.next()
    }
}

/// The envelope after one local hop: the hop strips its own address from the
/// front of the onward route and puts it in front of the return route.
pub open spec fn hop_spec(m: MessageView) -> MessageView {
    if m.onward.len() == 0 {
        m
    } else {
        MessageView { onward: m.onward.drop_first(), ret: seq![m.onward[0]] + m.ret, ..m }
    }
}

/// The envelope after `n` local hops.
pub open spec fn hops_spec(m: MessageView, n: nat) -> MessageView
    decreases n,
{
    if n == 0 {
        m
    } else {
        hops_spec(hop_spec(m), (n - 1) as nat)
    }
}

/// The hops of a route in reverse order.
pub open spec fn reversed(r: RouteView) -> RouteView
    decreases r.len(),
{
    if r.len() == 0 {
        r
    } else {
        reversed(r.drop_first()).push(r[0])
    }
}

impl TransportMessage {
    /// Passes the envelope through the hop at the head of its onward route:
    /// that address leaves the onward route and joins the return route.
    /// Returns false, changing nothing, when the onward route is empty.
    pub fn pass_hop(&mut self) -> (r: bool)
        ensures
            r == (old(self)@.onward.len() > 0),
            final(self)@ == hop_spec(old(self)@),
    {
        match self.onward_route.step() {
            Some(a) => {
                self.return_route.prepend(a);
                true
            },
            None => false,
        }
    }
}

/// An envelope sent through as many local hops as its onward route holds,
/// each stripping its own address and forwarding the rest, arrives with an
/// empty onward route, and its return route holds the hops, latest first,
/// in front of the route it started with; payload and version are kept.
pub proof fn lemma_hops_round_trip(m: MessageView)
    ensures
        hops_spec(m, m.onward.len()).onward.len() == 0,
        hops_spec(m, m.onward.len()).ret == reversed(m.onward) + m.ret,
        hops_spec(m, m.onward.len()).payload == m.payload,
        hops_spec(m, m.onward.len()).version == m.version,
    decreases m.onward.len(),
{
    if m.onward.len() > 0 {
        let m1 = hop_spec(m);
        assert(m1.onward.len() == m.onward.len() - 1);
        lemma_hops_round_trip(m1);
        assert(hops_spec(m, m.onward.len()) == hops_spec(m1, m1.onward.len()));
        assert(reversed(m1.onward) + m1.ret =~= reversed(m.onward) + m.ret);
    } else {
        assert(reversed(m.onward) + m.ret =~= m.ret);
    }
}

impl Clone for TransportMessage {
    fn clone(&self) -> (r: TransportMessage)
        ensures
            r@ == self@,
    {
        TransportMessage {
            version: self.version,
            onward_route: self.onward_route.clone(),
            return_route: self.return_route.clone(),
            payload: self.payload.clone(),
        }
    }
}

} // verus!
