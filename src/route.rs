//! Routes: ordered sequences of addresses that a message still has to visit.
use vstd::prelude::*;

use crate::address::{Address, AddressView};

verus! {

/// The hops of a route, first hop first.
pub type RouteView = Seq<AddressView>;

/// Views of a sequence of addresses.
pub open spec fn views_of(s: Seq<Address>) -> RouteView {
    s.map_values(|a: Address| a@)
}

/// An ordered list of addresses; an empty route means the message has arrived.
pub struct Route {
    pub hops: Vec<Address>,
}

impl View for Route {
    type V = RouteView;

    open spec fn view(&self) -> RouteView {
        views_of(self.hops@)
    }
}

impl Route {
    /// The empty route.
    pub fn new() -> (r: Route)
        ensures
            r@ == Seq::<AddressView>::empty(),
    {
        Route { hops: Vec::new() }
    }

    /// A route of one hop.
    pub fn single(a: Address) -> (r: Route)
        ensures
            r@ == seq![a@],
    {
        let mut hops: Vec<Address> = Vec::new();
        hops.push(a);
        proof {
            assert(views_of(hops@) =~= seq![a@]);
        }
        Route { hops }
    }

    /// Number of hops left.
    pub fn len(&self) -> (r: usize)
        ensures
            r == self@.len(),
    {
        self.hops.len()
    }

    /// True when no hop is left.
    pub fn is_empty(&self) -> (r: bool)
        ensures
            r == (self@.len() == 0),
    {
        self.hops.len() == 0
    }

    /// The next hop, if any, without consuming it.
    pub fn next(&self) -> (r: Option<&Address>)
        ensures
            self@.len() == 0 ==> r is None,
            self@.len() > 0 ==> r is Some && r->0@ == self@[0],
    {
        if self.hops.len() == 0 {
            None
        } else {
            Some(&self.hops[0])
        }
    }

    /// Consumes the next hop and returns it.
    pub fn step(&mut self) -> (r: Option<Address>)
        ensures
            old(self)@.len() == 0 ==> r is None && final(self)@ == old(self)@,
            old(self)@.len() > 0 ==> r is Some && r->0@ == old(self)@[0]
                && final(self)@ == old(self)@.drop_first(),
    {
        if self.hops.len() == 0 {
            None
        } else {
            let a = self.hops.remove(0);
            proof {
                assert(views_of(self.hops@) =~= views_of(old(self).hops@).drop_first());
            }
            Some(a)
        }
    }

    /// Puts `a` in front of the remaining hops.
    pub fn prepend(&mut self, a: Address)
        ensures
            final(self)@ == seq![a@] + old(self)@,
    {
        self.hops.insert(0, a);
        proof {
            assert(views_of(self.hops@) =~= seq![a@] + views_of(old(self).hops@));
        }
    }

    /// Puts `a` after the remaining hops.
    pub fn append(&mut self, a: Address)
        ensures
            final(self)@ == old(self)@.push(a@),
    {
        self.hops.push(a);
        proof {
            assert(views_of(self.hops@) =~= views_of(old(self).hops@).push(a@));
        }
    }
}

impl Clone for Route {
    fn clone(&self) -> (r: Route)
        ensures
            r@ == self@,
    {
        let mut hops: Vec<Address> = Vec::new();
        let mut i: usize = 0;
        while i < self.hops.len()
            invariant
                i <= self.hops@.len(),
                hops@.len() == i,
                forall|j: int| 0 <= j < i ==> (#[trigger] hops@[j])@ == self.hops@[j]@,
            decreases self.hops@.len() - i,
        {
            let a = self.hops[i].clone();
            hops.push(a);
            i = i + 1;
        }
        proof {
            assert(views_of(hops@) =~= views_of(self.hops@));
        }
        Route { hops }
    }
}

} // verus!
