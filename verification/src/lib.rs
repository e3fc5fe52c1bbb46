//! Host-side control library for a wireless pointing device.
//!
//! The crate speaks a feature-indexed request/response protocol over a raw
//! HID transport (packet codec, feature discovery and caching, retry and a
//! device-reported error taxonomy) and rewrites relative-scroll input events
//! with per-axis fractional-carry accumulators.

pub mod config;
pub mod constants;
pub mod device;
pub mod error;
pub mod features;
pub mod lock;
pub mod manager;
pub mod mouse;
pub mod packet;
pub mod scroll;
pub mod types;
