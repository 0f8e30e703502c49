//! The X11 back-end: keycodes, `XEvent` translation, window creation.

pub mod events;
pub mod keys;
pub mod setup;
