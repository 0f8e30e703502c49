//! The Cocoa back-end: virtual keycodes, `NSEvent` translation, window
//! style and OpenGL pixel format.

pub mod events;
pub mod keys;
pub mod setup;
