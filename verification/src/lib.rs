//! Core of an interactive serial-line monitor: the command history, the
//! repeated-interrupt detector, the scroll and edit state of the display, the
//! classification of device output and the interpretation of what the user
//! submits. Every function carries a contract that Verus proves.

pub mod app;
pub mod classifier;
pub mod history;
pub mod input;
pub mod interrupt;
pub mod monitor;
pub mod scroll;
pub mod text;
