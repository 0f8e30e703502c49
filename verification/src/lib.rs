//! A small cross-platform windowing library: window configuration, the event
//! model, and the platform-independent decisions of the X11, Win32 and Cocoa
//! back-ends (key maps, event translation, window-creation plans and the
//! event-loop state machines), each with its contract.

pub mod config;
pub mod error;
pub mod event;
pub mod event_loop;
pub mod geometry;
pub mod rwd;
pub mod text;

pub mod cocoa;
pub mod win32;
pub mod x11;

pub use config::WindowConfig;
pub use error::{Error, Result};
pub use event::{ControlFlow, Event, Key, MouseButton, WheelDelta};
