//! Core logic of a small interactive shape viewer.
//!
//! The library holds the parts of the viewer that can be stated and checked
//! exactly: mesh construction for a regular polygon and a unit cube,
//! the render state a user edits through the UI, shader pipeline selection
//! with its fallback, and the per-event decisions of the frame loop.
//! Window, GPU and UI plumbing live outside and act on the effect values
//! these functions return.

pub mod frame;
pub mod geometry;
pub mod state;
