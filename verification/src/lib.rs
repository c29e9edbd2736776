//! Core logic of a personal activity log: timestamped entries of the form
//! `<epoch_millis> <kind>:<text>`, one per line, appended to a plain text
//! file. This crate holds the state of the user interface, the transitions
//! that each interaction performs on it, and the exact text of the line each
//! interaction produces; the window toolkit and the file itself are driven by
//! the surrounding application.

pub mod decimal;
pub mod line;
pub mod state;
