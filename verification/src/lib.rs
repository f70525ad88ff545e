//! Verified core of a humanized auto-clicker: profile configuration,
//! the click engine's decision logic and the interface's state machine.
//!
//! Everything that touches devices, files, clocks or the screen lives in
//! the surrounding application; this crate decides what should happen.

pub mod config;
pub mod engine;
pub mod profiles;
pub mod text;
pub mod ui;
