//! The logic of the Lyra engine's window and renderer bring-up, verified.
//!
//! The engine opens one window and draws a fixed quad to it, frame after
//! frame, until the window is closed. This library holds what the engine
//! decides and computes; it never touches the window or the graphics device
//! itself. The caller owns those, tells the library what they report, and
//! performs the actions the library answers with.
//!
//! - `bootstrap`: what is asked of the graphics interface at startup.
//! - `surface`: negotiating and describing the surface configuration.
//! - `geometry`: the fixed geometry, its layout and its buffers.
//! - `pipeline`: the description of the render pipeline.
//! - `renderer`: the render state, resizing, and the decision for a frame.
//! - `event_loop`: the application and its event dispatcher.

pub mod bootstrap;
pub mod event_loop;
pub mod geometry;
pub mod pipeline;
pub mod renderer;
pub mod surface;
