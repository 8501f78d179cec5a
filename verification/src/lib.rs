//! Telemetry core for a simulated image sensor.
//!
//! A hardware simulation (the producer) publishes pixel-draw and
//! memory-address events while an independently paced visualization loop (the
//! consumer) observes them.  The crate provides the bounded single-producer,
//! multi-subscriber event bus that moves those events across the rate
//! mismatch, the rolling per-subscriber history windows used for
//! visualization, the bijection between linear sensor addresses and 2-D pixel
//! coordinates, and the deterministic raw-memory model reconstructed from a
//! color source image.

pub mod bus;
pub mod decode;
pub mod events;
pub mod geometry;
pub mod memory;
pub mod queue;
pub mod state;
