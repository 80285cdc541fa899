//! Keystroke injection pacing and tray-driven window lifecycle decisions.
//!
//! The library decides; the host performs. [`injector`] turns a text into a
//! paced sequence of insertion and pause steps, and [`tray`] maps menu
//! selections and tray gestures to window and process effects.

pub mod injector;
pub mod tray;
