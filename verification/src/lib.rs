//! A minimal real-time rendering scaffold, modelled so that its frame
//! lifecycle can be verified: vertex and uniform layouts, the graphics
//! state that owns the swapchain description and all GPU resources, the
//! mesh draw path with its create-buffers-at-most-once invariant, and
//! the event-loop decision rules.
//!
//! Everything the GPU and the window system actually do is performed by
//! an unverified shell around this crate; the shell executes the command
//! plans this crate produces and feeds events back in as plain values.

pub mod game;
pub mod render;
