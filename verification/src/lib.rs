//! A minimal interactive renderer host, verified.
//!
//! The library owns the logic of an event-driven frame lifecycle: it drains a
//! batch of window events, classifies them, recomputes geometry on resize,
//! rebuilds a display list, and plans the exact sequence of compositor calls
//! for the surrounding (unverified) windowing and GPU code to perform.

pub mod display_list;
pub mod event;
pub mod geometry;
pub mod state;
