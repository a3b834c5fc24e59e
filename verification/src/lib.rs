//! A terminal client for a packet-radio mesh, as far as it can be stated
//! and proved: the router that turns frames from the radio into events, the
//! session that takes the events and the operator's keys, and the decisions
//! of the radio worker between the two.
//!
//! The radio worker and the session run on two threads and share nothing
//! but two bounded queues, one in each direction. Neither ever waits for
//! the other: what a full queue does not take is dropped.

pub mod app;
pub mod channel;
pub mod directory;
pub mod focus;
pub mod mesh;
pub mod router;
pub mod session;
pub mod store;
pub mod text;
pub mod types;
