//! Pairing and access control for a single-owner Bluetooth Low Energy peripheral.
//!
//! The first peer that ever connects becomes the owner of the device. Its identity
//! is kept in a small persistent namespace, and every later connection is admitted
//! only if it comes from that owner.
//!
//! * [`identity`]: the transport-level identity of a peer.
//! * [`config`]: the persisted namespace and the encoding of its two records.
//! * [`pairing`]: the decisions taken while a connection event is handled.
//! * [`race`]: connection events that overlap.
//! * [`laws`]: theorems that relate them.

pub mod identity;
pub mod config;
pub mod pairing;
pub mod race;
pub mod laws;
