//! Synchronization core of a real-time multiplayer terminal client.
//!
//! A network task and a render/input task share two containers: the
//! snapshot store, which keeps the latest world snapshot, and the outbound
//! queue, which keeps the commands that wait for transmission. Every frame
//! the render/input task turns a snapshot into a list of cells to draw and an
//! input event into the next interaction state.

pub mod geometry;
pub mod glyph;
pub mod network;
pub mod queue;
pub mod render;
pub mod runstate;
pub mod snapshot;
pub mod state;
pub mod status;
