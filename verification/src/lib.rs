//! Verified core of a GStreamer-backed video player: the decisions that drive
//! playback (bus message reduction, overlay-gated preroll, play / EOS resume,
//! track selection, overlay session bookkeeping) as plain-value state machines
//! with Verus contracts. The GStreamer pipeline itself is driven by the
//! application crate, which feeds these functions plain values and performs the
//! actions they return.

pub mod events;
pub mod pipeline;
pub mod preroll;
pub mod bus;
pub mod resume;
pub mod tracks;
pub mod overlay;
pub mod android;
pub mod ios;
pub mod orientation;
pub mod metadata;
pub mod frame;
pub mod engine;
pub mod bus_thread;
pub mod laws;
