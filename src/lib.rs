//! Real-time synchronisation of a small set of named on/off sensors.
//!
//! The library holds the authoritative sensor store, the operations that
//! mutate it and publish a full snapshot of it, the fan-out hub that carries
//! those snapshots to every live subscriber, and the decisions of a duplex
//! client session. Transport, rendering and process setup live elsewhere.

pub mod timestamp;
pub mod state;
pub mod hub;
pub mod store;
pub mod ops;
pub mod session;
pub mod laws;
pub mod card;
