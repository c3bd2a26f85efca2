//! A bonding-curve market maker for token launches.
//!
//! The library is the pricing and reserve-accounting engine: constant-product
//! pricing, basis-point fees, overflow-checked reserve updates, and the
//! graduation state machine that ends curve trading once enough collateral
//! has been raised. Everything here is pure integer arithmetic over plain
//! values; durable storage, identity checks, asset transfers and event sinks
//! are the host's concern and sit outside this crate.

pub mod config;
pub mod curve;
pub mod errors;
pub mod fee;
pub mod laws;
pub mod math;
pub mod pricing;
pub mod trade;
pub mod validate;
