//! Addresses and routes.
use vstd::prelude::*;

verus! {

/// Transport tag of an address that names an actor of this node.
pub const LOCAL: u8 = 0;

/// The mathematical value of an address: its transport tag and its name.
pub type AddressView = (u8, Seq<char>);

/// An address naming an actor within a node, or a hop of a transport when its
/// tag is not `LOCAL`.
pub struct Address {
    pub tt: u8,
    pub inner: String,
}

impl View for Address {
    type V = AddressView;

    open spec fn view(&self) -> AddressView {
        (self.tt, self.inner@)
    }
}

impl Address {
    /// An address with the given transport tag and name.
    pub fn new(tt: u8, inner: String) -> (r: Address)
        ensures
            r@ == (tt, inner@),
    {
        Address { tt, inner }
    }

    /// A local address with the given name.
    pub fn local(inner: String) -> (r: Address)
        ensures
            r@ == (LOCAL, inner@),
    {
        Address { tt: LOCAL, inner }
    }

    /// True when both addresses have the same tag and name.
    pub fn same(&self, other: &Address) -> (r: bool)
        ensures
            r == (self@ == other@),
    {
        self.tt == other.tt && self.inner == other.inner
    }

    /// True when this address names an actor of this node.
    pub fn is_local(&self) -> (r: bool)
        ensures
            r == (self@.0 == LOCAL),
    {
        self.tt == LOCAL
    }
}

impl Clone for Address {
    fn clone(&self) -> (r: Address)
        ensures
            r == *self,
    {
        Address { tt: self.tt, inner: self.inner.clone() }
    }
}

} // verus!
