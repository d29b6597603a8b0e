//! Core of a live status bar: a protocol codec for a window manager's
//! workspace messages, the event-client state machine that keeps a
//! subscription alive, a battery percentage formatter, a repaint
//! coalescer, and the display-state aggregator that merges everything
//! for the render host.

pub mod client;
pub mod clock;
pub mod coalescer;
pub mod codec;
pub mod display;
pub mod json;
pub mod sampler;
pub mod textfmt;
