//! Core logic of Mouse Jiggler Neo: jiggle patterns, the random-timer
//! generator, settings sanitising and load/save decisions, the command-line
//! parser, tray bookkeeping and the main window's state transitions.
//!
//! Everything that touches the operating system (Win32 calls, files, the
//! environment, JSON) lives in the `app/` crate, which hands this library
//! plain values and performs the actions it decides on.

pub mod ids;
pub mod jiggle;
pub mod util;
pub mod rng;
pub mod settings;
pub mod cli;
pub mod startup;
pub mod tray;
pub mod ui_main;
