//! The node: it creates and stops actors, owns their mailboxes and the
//! address registry, and routes envelopes to the next hop.
use vstd::prelude::*;

use crate::address::{Address, AddressView};
use crate::mailbox::{
    closed_mailbox, empty_mailbox, receive_spec, send_spec, Mailbox, MailboxClosed, MailboxView,
};
use crate::message::{MessageView, TransportMessage};
use crate::registry::{lookup_spec, AddressInUse, Registry};

verus! {

/// Why an envelope could not be routed.
#[derive(Debug, PartialEq, Eq, Structural)]
pub enum RouteError {
    /// The next hop is neither a live local address nor owned by a transport.
    Unreachable,
}

/// Where a routed envelope went.
pub enum Delivery {
    /// Into the mailbox with this handle.
    Local(usize),
    /// To the transport with this tag, which now has to carry the envelope.
    Transport(u8, TransportMessage),
}

/// How the next hop of an envelope resolves.
pub enum Resolution {
    Local(usize),
    Transport(u8),
    Unreachable,
}

/// The mathematical value of a node.
pub struct NodeView {
    /// Live addresses and the handles of their mailboxes.
    pub registry: Map<AddressView, usize>,
    /// Every mailbox ever created, indexed by handle.
    pub mailboxes: Seq<MailboxView>,
    /// Tags of the transports that carry envelopes off this node.
    pub transports: Seq<u8>,
}

/// How the router resolves the next hop of `msg` on node `n`: a live local
/// address first, then a transport that owns the address's tag.
pub open spec fn resolve_spec(n: NodeView, msg: MessageView) -> Resolution {
    if msg.onward.len() == 0 {
        Resolution::Unreachable
    } else if n.registry.contains_key(msg.onward[0]) {
        Resolution::Local(n.registry[msg.onward[0]])
    } else if n.transports.contains(msg.onward[0].0) {
        Resolution::Transport(msg.onward[0].0)
    } else {
        Resolution::Unreachable
    }
}

/// What routing `msg` does: node `o` becomes node `n` and `r` is returned.
pub open spec fn routed(o: NodeView, msg: MessageView, n: NodeView, r: Result<Delivery, RouteError>) -> bool {
    match r {
        Ok(Delivery::Local(h)) => {
            &&& resolve_spec(o, msg) == Resolution::Local(h)
            &&& n == (NodeView {
                mailboxes: o.mailboxes.update(
                    h as int,
                    send_spec(o.mailboxes[h as int], msg).0,
                ),
                ..o
            })
            &&& n.mailboxes[h as int].queue == o.mailboxes[h as int].queue.push(msg)
        },
        Ok(Delivery::Transport(tt, m)) => {
            &&& resolve_spec(o, msg) == Resolution::Transport(tt)
            &&& m@ == msg
            &&& n == o
        },
        Err(RouteError::Unreachable) => {
            &&& resolve_spec(o, msg) == Resolution::Unreachable
            &&& n == o
        },
    }
}

/// A runtime node: registry, mailboxes and known transports.
pub struct Node {
    registry: Registry,
    mailboxes: Vec<Mailbox>,
    transports: Vec<u8>,
}

impl View for Node {
    type V = NodeView;

    closed spec fn view(&self) -> NodeView {
        NodeView {
            registry: self.registry@,
            mailboxes: self.mailboxes@.map_values(|m: Mailbox| m@),
            transports: self.transports@,
        }
    }
}

/// Each live address has its own mailbox, and that mailbox is open.
pub open spec fn node_inv(n: NodeView) -> bool {
    &&& forall|a: AddressView| #[trigger] n.registry.contains_key(a) ==> n.registry[a] < n.mailboxes.len()
        && n.mailboxes[n.registry[a] as int].open
    &&& forall|a: AddressView, b: AddressView|
        #[trigger] n.registry.contains_key(a) && #[trigger] n.registry.contains_key(b) && n.registry[a]
            == n.registry[b] ==> a == b
}

impl Node {
    /// Well-formed: the registry is, and `node_inv` holds.
    pub closed spec fn wf(&self) -> bool {
        self.registry.wf() && node_inv(self@)
    }

    /// A node with no actors and no transports.
    pub fn new() -> (r: Node)
        ensures
            r.wf(),
            r@.registry == Map::<AddressView, usize>::empty(),
            r@.mailboxes.len() == 0,
            r@.transports.len() == 0,
    {
        let r = Node { registry: Registry::new(), mailboxes: Vec::new(), transports: Vec::new() };
        r
    }

    /// Makes envelopes whose next hop has tag `tt` go to that transport.
    pub fn add_transport(&mut self, tt: u8)
        requires
            old(self).wf(),
        ensures
            final(self).wf(),
            final(self)@ == (NodeView { transports: old(self)@.transports.push(tt), ..old(self)@ }),
    {
        self.transports.push(tt);
    }

    /// The mailbox handle of a live address.
    pub fn lookup(&self, a: &Address) -> (r: Option<usize>)
        requires
            self.wf(),
        ensures
            r == lookup_spec(self@.registry, a@),
    {
        self.registry.lookup(a)
    }

    /// Number of mailboxes created so far; handles are below it.
    pub fn mailbox_count(&self) -> (r: usize)
        ensures
            r == self@.mailboxes.len(),
    {
        self.mailboxes.len()
    }

    fn has_transport(&self, tt: u8) -> (r: bool)
        ensures
            r == self@.transports.contains(tt),
    {
        let mut i: usize = 0;
        while i < self.transports.len()
            invariant
                i <= self.transports@.len(),
                forall|j: int| 0 <= j < i ==> self.transports@[j] != tt,
            decreases self.transports@.len() - i,
        {
            if self.transports[i] == tt {
                return true;
            }
            i = i + 1;
        }
        false
    }

    /// Starts an actor at `a`: registers it with a new open mailbox, whose
    /// handle is returned. Fails with `AddressInUse`, changing nothing, when
    /// `a` is live.
    pub fn start_worker(&mut self, a: Address) -> (r: Result<usize, AddressInUse>)
        requires
            old(self).wf(),
        ensures
            final(self).wf(),
            match r {
                Ok(h) => {
                    &&& !old(self)@.registry.contains_key(a@)
                    &&& h == old(self)@.mailboxes.len()
                    &&& final(self)@ == (NodeView {
                        registry: old(self)@.registry.insert(a@, h),
                        mailboxes: old(self)@.mailboxes.push(empty_mailbox()),
                        transports: old(self)@.transports,
                    })
                },
                Err(_) => old(self)@.registry.contains_key(a@) && final(self)@ == old(self)@,
            },
    {
        let h = self.mailboxes.len();
        let ghost av = a@;
        match self.registry.register(a, h) {
            Err(e) => Err(e),
            Ok(()) => {
                self.mailboxes.push(Mailbox::new());
                proof {
                    assert(self@.mailboxes =~= old(self)@.mailboxes.push(empty_mailbox()));
                    let n = self@;
                    let o = old(self)@;
                    assert forall|x: AddressView| #[trigger] n.registry.contains_key(x) implies n.registry[x]
                        < n.mailboxes.len() && n.mailboxes[n.registry[x] as int].open by {
                        if x != av {
                            assert(o.registry.contains_key(x));
                        }
                    }
                    assert forall|x: AddressView, y: AddressView|
                        #[trigger] n.registry.contains_key(x) && #[trigger] n.registry.contains_key(y)
                            && n.registry[x] == n.registry[y] implies x == y by {
                        if x != av {
                            assert(o.registry.contains_key(x));
                        }
                        if y != av {
                            assert(o.registry.contains_key(y));
                        }
                    }
                }
                Ok(h)
            },
        }
    }

    /// Stops the actor at `a`: its address leaves the registry and its
    /// mailbox is closed, so that every later send to it fails. Returns the
    /// handle it had, or `None`, changing nothing, when `a` is not live.
    pub fn stop_worker(&mut self, a: &Address) -> (r: Option<usize>)
        requires
            old(self).wf(),
        ensures
            final(self).wf(),
            r == lookup_spec(old(self)@.registry, a@),
            match r {
                Some(h) => final(self)@ == (NodeView {
                    registry: old(self)@.registry.remove(a@),
                    mailboxes: old(self)@.mailboxes.update(h as int, closed_mailbox()),
                    transports: old(self)@.transports,
                }),
                None => final(self)@ == old(self)@,
            },
    {
        match self.registry.remove(a) {
            None => {
                assert(self@.registry =~= old(self)@.registry);
                None
            },
            Some(h) => {
                let mut mb = self.mailboxes.remove(h);
                mb.close();
                self.mailboxes.insert(h, mb);
                proof {
                    assert(self@.mailboxes =~= old(self)@.mailboxes.update(h as int, closed_mailbox()));
                    let n = self@;
                    let o = old(self)@;
                    assert forall|x: AddressView| #[trigger] n.registry.contains_key(x) implies n.registry[x]
                        < n.mailboxes.len() && n.mailboxes[n.registry[x] as int].open by {
                        assert(o.registry.contains_key(x) && o.registry.contains_key(a@));
                    }
                    assert forall|x: AddressView, y: AddressView|
                        #[trigger] n.registry.contains_key(x) && #[trigger] n.registry.contains_key(y)
                            && n.registry[x] == n.registry[y] implies x == y by {
                        assert(o.registry.contains_key(x) && o.registry.contains_key(y));
                    }
                }
                Some(h)
            },
        }
    }

    /// Starts an actor at the first of `candidates` that is not live, trying
    /// them in order; returns its position in `candidates` and its mailbox
    /// handle. Fails with `AddressInUse`, changing nothing, when every
    /// candidate is live.
    pub fn start_worker_at_free(&mut self, candidates: &Vec<Address>) -> (r: Result<(usize, usize), AddressInUse>)
        requires
            old(self).wf(),
        ensures
            final(self).wf(),
            match r {
                Ok((i, h)) => {
                    &&& i < candidates@.len()
                    &&& forall|j: int| 0 <= j < i ==> old(self)@.registry.contains_key(#[trigger] candidates@[j]@)
                    &&& !old(self)@.registry.contains_key(candidates@[i as int]@)
                    &&& h == old(self)@.mailboxes.len()
                    &&& final(self)@ == (NodeView {
                        registry: old(self)@.registry.insert(candidates@[i as int]@, h),
                        mailboxes: old(self)@.mailboxes.push(empty_mailbox()),
                        transports: old(self)@.transports,
                    })
                },
                Err(_) => {
                    &&& forall|j: int| 0 <= j < candidates@.len() ==> old(self)@.registry.contains_key(#[trigger] candidates@[j]@)
                    &&& final(self)@ == old(self)@
                },
            },
    {
        let mut i: usize = 0;
        while i < candidates.len()
            invariant
                self.wf(),
                self@ == old(self)@,
                i <= candidates@.len(),
                forall|j: int| 0 <= j < i ==> old(self)@.registry.contains_key(#[trigger] candidates@[j]@),
            decreases candidates@.len() - i,
        {
            let a = candidates[i].clone();
            match self.start_worker(a) {
                Ok(h) => {
                    return Ok((i, h));
                },
                Err(_) => {},
            }
            i = i + 1;
        }
        Err(AddressInUse)
    }

    /// Shuts the node down: every actor is stopped, so the registry is
    /// empty and every mailbox is closed.
    pub fn shutdown(&mut self)
        requires
            old(self).wf(),
        ensures
            final(self).wf(),
            final(self)@.registry == Map::<AddressView, usize>::empty(),
            final(self)@.mailboxes.len() == old(self)@.mailboxes.len(),
            forall|i: int| 0 <= i < final(self)@.mailboxes.len() ==> #[trigger] final(self)@.mailboxes[i] == closed_mailbox(),
            final(self)@.transports == old(self)@.transports,
    {
        let n = self.mailboxes.len();
        let mut closed: Vec<Mailbox> = Vec::new();
        let mut i: usize = 0;
        while i < n
            invariant
                i <= n,
                closed@.len() == i,
                forall|j: int| 0 <= j < i ==> (#[trigger] closed@[j])@ == closed_mailbox(),
            decreases n - i,
        {
            let mut m = Mailbox::new();
            m.close();
            closed.push(m);
            i = i + 1;
        }
        self.mailboxes = closed;
        self.registry = Registry::new();
    }

    /// Sends `msg` straight to the mailbox with handle `h`; fails with
    /// `MailboxClosed` when its actor has stopped.
    pub fn send_to(&mut self, h: usize, msg: TransportMessage) -> (r: Result<(), MailboxClosed>)
        requires
            old(self).wf(),
            h < old(self)@.mailboxes.len(),
        ensures
            final(self).wf(),
            r is Ok == send_spec(old(self)@.mailboxes[h as int], msg@).1,
            final(self)@ == (NodeView {
                mailboxes: old(self)@.mailboxes.update(h as int, send_spec(old(self)@.mailboxes[h as int], msg@).0),
                ..old(self)@
            }),
    {
        let mut mb = self.mailboxes.remove(h);
        let r = mb.send(msg);
        self.mailboxes.insert(h, mb);
        proof {
            assert(self@.mailboxes =~= old(self)@.mailboxes.update(
                h as int,
                send_spec(old(self)@.mailboxes[h as int], msg@).0,
            ));
            let n = self@;
            assert forall|x: AddressView| #[trigger] n.registry.contains_key(x) implies n.registry[x]
                < n.mailboxes.len() && n.mailboxes[n.registry[x] as int].open by {
            }
        }
        r
    }

    /// Takes the oldest envelope waiting in the mailbox with handle `h`.
    pub fn receive(&mut self, h: usize) -> (r: Option<TransportMessage>)
        requires
            old(self).wf(),
            h < old(self)@.mailboxes.len(),
        ensures
            final(self).wf(),
            final(self)@ == (NodeView {
                mailboxes: old(self)@.mailboxes.update(h as int, receive_spec(old(self)@.mailboxes[h as int]).0),
                ..old(self)@
            }),
            match r {
                Some(m) => receive_spec(old(self)@.mailboxes[h as int]).1 == Some(m@),
                None => receive_spec(old(self)@.mailboxes[h as int]).1 is None,
            },
    {
        let mut mb = self.mailboxes.remove(h);
        let r = mb.receive();
        self.mailboxes.insert(h, mb);
        proof {
            assert(self@.mailboxes =~= old(self)@.mailboxes.update(
                h as int,
                receive_spec(old(self)@.mailboxes[h as int]).0,
            ));
            let n = self@;
            assert forall|x: AddressView| #[trigger] n.registry.contains_key(x) implies n.registry[x]
                < n.mailboxes.len() && n.mailboxes[n.registry[x] as int].open by {
            }
        }
        r
    }

    /// Routes `msg` by the head of its onward route, which is left in place
    /// for the receiving hop to consume. A live local address gets the
    /// envelope in its mailbox; an address whose tag a transport owns is
    /// handed back for that transport to carry; anything else, including an
    /// empty onward route, fails with `Unreachable` and changes nothing.
    pub fn route(&mut self, msg: TransportMessage) -> (r: Result<Delivery, RouteError>)
        requires
            old(self).wf(),
        ensures
            final(self).wf(),
            routed(old(self)@, msg@, final(self)@, r),
    {
        let next = match msg.onward_route.next() {
            None => {
                return Err(RouteError::Unreachable);
            },
            Some(a) => a.clone(),
        };
        match self.registry.lookup(&next) {
            Some(h) => {
                proof {
                    assert(old(self)@.registry.contains_key(next@));
                }
                let r = self.send_to(h, msg);
                match r {
                    Ok(()) => Ok(Delivery::Local(h)),
                    Err(_) => Err(RouteError::Unreachable),
                }
            },
            None => {
                if self.has_transport(next.tt) {
                    Ok(Delivery::Transport(next.tt, msg))
                } else {
                    Err(RouteError::Unreachable)
                }
            },
        }
    }
}

/// Routing an envelope whose next hop is neither live in the registry nor
/// owned by a transport fails with `Unreachable`, and the envelope is
/// delivered nowhere: the node, every mailbox included, stays as it was.
pub proof fn lemma_unknown_hop_unreachable(n: NodeView, msg: MessageView)
    requires
        msg.onward.len() > 0,
        !n.registry.contains_key(msg.onward[0]),
        !n.transports.contains(msg.onward[0].0),
    ensures
        resolve_spec(n, msg) == Resolution::Unreachable,
        forall|n2: NodeView, r: Result<Delivery, RouteError>| #[trigger] routed(n, msg, n2, r) ==> r is Err && n2
            == n,
{
}

/// Once an actor is stopped, a send to its mailbox fails with
/// `MailboxClosed` and queues nothing.
pub proof fn lemma_send_to_stopped_fails(n: NodeView, a: AddressView, msg: MessageView)
    requires
        node_inv(n),
        n.registry.contains_key(a),
    ensures
        ({
            let h = n.registry[a];
            let stopped = n.mailboxes.update(h as int, closed_mailbox());
            send_spec(stopped[h as int], msg) == (closed_mailbox(), false)
        }),
{
}

} // verus!
