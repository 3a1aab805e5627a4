//! Key-slot compatibility and lifecycle for a secure element.
//!
//! A secure element offers a fixed number of slots, each provisioned with a
//! hardware configuration that never changes. This crate decides whether a
//! key, described by its attributes alone, can be bound to a given slot, and
//! keeps the status and the claim guard of each slot.

pub mod algorithm;
pub mod attributes;
pub mod compat;
pub mod hardware;
pub mod lifecycle;
pub mod slot;

pub use slot::{AteccKeySlot, KeySlotStatus, SlotError};
