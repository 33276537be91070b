//! Verified core of a USB power-meter sampling service.
//!
//! The library models the data a power-measurement device exposes over USB
//! (its identity and its configuration descriptor) as plain values, and
//! verifies the logic that drives such devices: identity matching against a
//! known product-id table, bulk-endpoint discovery with interface claiming,
//! per-device sampling sessions, and the orchestrator that owns them.
//! The operating system's USB transport (enumerate, open, claim, transfer,
//! reset) is consumed by an unverified shell around this crate, which hands
//! the library plain values and executes the action plans it returns.

pub mod catalog;
pub mod config;
pub mod device;
pub mod dummy;
pub mod sampler;
pub mod shizuku;
