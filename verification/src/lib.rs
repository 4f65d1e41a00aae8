//! Core of a real-time display hub: a registry of plugins (script, metadata,
//! per-plugin settings) and an optional stylesheet, kept in a directory-backed
//! store and mirrored to every connected client.
//!
//! The crate holds the verified logic only: the wire-envelope codec, the
//! plugin and style registries, and the dispatcher that decides, for each
//! inbound frame, which store actions to perform and whether the reply is
//! unicast to the requester or broadcast to every open connection.  Actual
//! sockets, network fetches and filesystem writes are driven by a host
//! program: each mutating operation is a state machine that emits store
//! actions and consumes their outcomes as events.

pub mod conns;
pub mod json;
pub mod laws;
pub mod message;
pub mod plugin;
pub mod ops;
pub mod style;

pub use json::Json;
pub use json::JsonV;
pub use message::Message;
pub use message::MsgType;
