//! A declarative codec for Netlink and Generic Netlink messages.
//!
//! Attributes (type-length-value records) are read and written through the
//! `Serialize` and `Deserialize` traits of `attr`, which each attribute
//! schema implements; messages are framed by `message`, split out of a
//! datagram by `iter`, and wrapped in the Generic Netlink sub-header by
//! `genl`. Every function states in its contract the bytes it writes or the
//! value it reads, and the laws that tie them together (round trips, the
//! layout of attribute sequences, length prefixes, the wildcard, the checks
//! on schema declarations) are proved.
pub mod attr;
pub mod command;
pub mod ctrl;
pub mod family;
pub mod genl;
pub mod iter;
pub mod message;
pub mod payload;
pub mod schema;
pub mod utils;

pub use message::serialize;
