//! Core of an interactive terminal session driven by a fixed-rate tick loop.
//!
//! The library owns every decision of the session: which terminal modes to
//! enter at startup, how to unwind when a startup step fails, how drained
//! input is classified into per-tick event queues, how the window record
//! tracks resize events, and which modes to undo when an exit is requested.
//! All of those decisions are computed over plain data and verified; the
//! shell that actually talks to the terminal performs the returned
//! [`commands::TermCommand`] values and reports back what happened.

pub mod commands;
pub mod components;
pub mod error_handling;
pub mod event;
pub mod window;
