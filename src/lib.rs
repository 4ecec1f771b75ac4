//! An address-based actor runtime: routes, envelopes, mailboxes, an address
//! registry, a router, per-actor relays, and a forwarding service built on them.

pub mod address;
pub mod route;
pub mod message;
pub mod mailbox;
pub mod registry;
pub mod node;
pub mod relay;
pub mod forwarder;
pub mod profile;
