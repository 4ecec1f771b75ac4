//! Profiles: a thin façade over a handle to an identity entity, an actor
//! that owns the keys and does the identity work.
use vstd::prelude::*;

use crate::address::{Address, AddressView};
use crate::message::{MessageView, TransportMessage, VERSION_1};
use crate::node::{routed, Delivery, Node, RouteError};
use crate::route::Route;

verus! {

/// The identifier of a profile.
pub struct ProfileIdentifier(pub String);

impl Clone for ProfileIdentifier {
    fn clone(&self) -> (r: ProfileIdentifier)
        ensures
            r == *self,
    {
        ProfileIdentifier(self.0.clone())
    }
}

/// A handle to the actor of an identity entity.
pub struct Handle {
    pub address: Address,
}

impl Handle {
    /// A handle to the entity actor at `address`.
    pub fn new(address: Address) -> (r: Handle)
        ensures
            r == (Handle { address }),
    {
        Handle { address }
    }

    /// Sends `request` to the entity actor, with `from` as the return route,
    /// without waiting for a reply.
    pub fn cast(&self, node: &mut Node, from: &Address, request: Vec<u8>) -> (r: Result<Delivery, RouteError>)
        requires
            old(node).wf(),
        ensures
            final(node).wf(),
            routed(old(node)@, request_message(self.address@, from@, request@), final(node)@, r),
    {
        let msg = TransportMessage::v1(Route::single(self.address.clone()), Route::single(from.clone()), request);
        node.route(msg)
    }
}

impl Clone for Handle {
    fn clone(&self) -> (r: Handle)
        ensures
            r == *self,
    {
        Handle { address: self.address.clone() }
    }
}

/// The envelope of a request sent from `from` to the entity at `to`.
pub open spec fn request_message(to: AddressView, from: AddressView, request: Seq<u8>) -> MessageView {
    MessageView { version: VERSION_1, onward: seq![to], ret: seq![from], payload: request }
}

/// An identity entity, reached through its handle, with the identifier of
/// the profile it acts for, when known.
pub struct Entity {
    pub handle: Handle,
    pub id: Option<ProfileIdentifier>,
}

impl Entity {
    /// An entity reached through `handle`.
    pub fn new(handle: Handle, id: Option<ProfileIdentifier>) -> (r: Entity)
        ensures
            r == (Entity { handle, id }),
    {
        Entity { handle, id }
    }
}

/// A profile: an identifier and a handle to the entity that does its work.
pub struct Profile {
    id: ProfileIdentifier,
    handle: Handle,
}

impl Profile {
    /// The identifier of the profile.
    pub closed spec fn spec_id(&self) -> ProfileIdentifier {
        self.id
    }

    /// The handle of the profile's entity.
    pub closed spec fn spec_handle(&self) -> Handle {
        self.handle
    }

    /// A profile with identifier `id` whose work the entity behind `handle` does.
    pub fn new(id: ProfileIdentifier, handle: Handle) -> (r: Profile)
        ensures
            r.spec_id() == id,
            r.spec_handle() == handle,
    {
        Profile { id, handle }
    }

    /// The identifier of the profile.
    pub fn identifier(&self) -> (r: ProfileIdentifier)
        ensures
            r == self.spec_id(),
    {
        self.id.clone()
    }

    /// The entity behind the profile, knowing the profile's identifier.
    pub fn entity(&self) -> (r: Entity)
        ensures
            r == (Entity { handle: self.spec_handle(), id: Some(self.spec_id()) }),
    {
        Entity::from(self.clone())
    }

    /// Sends `request` to the profile's entity, with `from` as the return
    /// route, without waiting for a reply.
    pub fn cast(&self, node: &mut Node, from: &Address, request: Vec<u8>) -> (r: Result<Delivery, RouteError>)
        requires
            old(node).wf(),
        ensures
            final(node).wf(),
            routed(old(node)@, request_message(self.spec_handle().address@, from@, request@), final(node)@, r),
    {
        self.handle.cast(node, from, request)
    }
}

impl Clone for Profile {
    fn clone(&self) -> (r: Profile)
        ensures
            r == *self,
    {
        Profile { id: self.id.clone(), handle: self.handle.clone() }
    }
}

impl From<Profile> for Entity {
    fn from(p: Profile) -> (r: Entity) {
        Entity { handle: p.handle, id: Some(p.id) }
    }
}

impl vstd::std_specs::convert::FromSpecImpl<Profile> for Entity {
    open spec fn obeys_from_spec() -> bool {
        true
    }

    open spec fn from_spec(p: Profile) -> Entity {
        Entity { handle: p.spec_handle(), id: Some(p.spec_id()) }
    }
}

} // verus!
