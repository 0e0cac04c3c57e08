//! An interactive editor core for two related lists: the process environment
//! variables and the components of the `PATH` variable.
//!
//! The crate holds the event pipeline's pure half and the dual-list editing
//! state machine: translating raw terminal signals into semantic events,
//! applying one event at a time to the application state, and producing the
//! exact text that a commit appends to the shell configuration file. All
//! terminal, filesystem and process-environment access stays outside, in the
//! binary that drives this library.

pub mod app;
pub mod config;
pub mod event;
pub mod handler;
pub mod split;
pub mod text;
