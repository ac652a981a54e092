//! Offscreen frame-extraction and delivery pipeline.
//!
//! The library models the path from a rendered GPU texture to a delivered
//! byte buffer: a render-stage copy writes rows padded to a device alignment,
//! the bytes travel over a coalescing channel, a consumer strips the padding,
//! rate-limits and times the result, publishes it into a shared slot, and a
//! protocol handler serves that slot under several encodings.

pub mod camera;
pub mod channel;
pub mod clock;
pub mod commands;
pub mod config;
pub mod consumer;
pub mod encode;
pub mod padding;
pub mod protocol;
pub mod rate;
pub mod slot;
pub mod stats;
pub mod timing;
