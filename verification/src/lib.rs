//! A verified record store for reconciling off-chain mobile-money checkouts
//! with their on-chain stablecoin equivalents.
//!
//! Each completed checkout is recorded exactly once under its checkout
//! request id, made queryable, and its status may later move within a fixed
//! set of values. The store keeps a monotonically increasing count of
//! successful creations and an append-only log of the notifications it would
//! hand to an external event sink.

pub mod laws;
pub mod records;
pub mod store;
pub mod text;
