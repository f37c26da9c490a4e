//! The rendering and surface-lifecycle engine of a login screen that draws
//! straight onto a display-server protocol.
//!
//! Everything here is plain state and arithmetic: pixel buffers, the pair of
//! frame pools, the per-output surface set, the command queue and the input
//! state machines. Each step reports what has to be sent to the display
//! server; performing that traffic is left to the caller.

pub mod app;
pub mod buffer;
pub mod cmd;
pub mod color;
pub mod config;
pub mod doublemempool;
pub mod draw;
pub mod input;
pub mod keysyms;
pub mod surfaces;
pub mod widget;
pub mod widgets;
