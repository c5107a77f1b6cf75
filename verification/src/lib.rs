//! Glue between a host application's event bus and an embedded immediate-mode
//! GUI overlay: decides, per input event, whether the GUI consumed it, drains
//! the input and windowing event streams through cursors, and exposes a
//! frame-scoped handle through which decoupled code may draw.

pub mod channel;
pub mod context;
pub mod events;
pub mod frame;
pub mod plugin;
pub mod system;
