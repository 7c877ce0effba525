//! Gesture-synthesis engine for a mouse-driven touch simulator.
//!
//! Physical mouse events are turned into synthetic touch contacts: a drag
//! gesture (one or two fingers following the cursor) or an automatic
//! pinch-zoom animation. This crate holds the decision logic — which batch of
//! contacts an event asks to inject, and how the shared contact state and
//! gesture mode change once the injection outcome is known. The surrounding
//! process wires these decisions to the operating system's input hook and
//! touch-injection calls.

pub mod auto_zoom;
pub mod contact;
pub mod engine;
pub mod events;
pub mod keep_alive;
pub mod laws;
pub mod state;
