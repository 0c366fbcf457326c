//! Keyboard backlight control for a four-zone RGB laptop keyboard.
//!
//! The library turns a lighting configuration into the fixed 32-byte command
//! frame that the keyboard's controller expects, validates the pieces such a
//! configuration is built from, and holds the decisions of the monitor mode,
//! which re-applies configurations when a watched setting changes.
pub mod color;
pub mod params;
pub mod frame;
pub mod monitor;
pub mod transport;
