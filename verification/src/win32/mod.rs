//! The Win32 back-end: virtual keys, window messages, window creation,
//! cursor placement and display modes.

pub mod keys;
pub mod messages;
pub mod modes;
pub mod setup;
