//! Session controller for an interactive package-management terminal client.
//!
//! The library owns the session state machine: tabs, modes, search filtering,
//! selection, and the transitions driven by key presses and background
//! results. Callers run the event loop and the external processes; every
//! decision the session makes is taken here and verified against the
//! specification functions in these modules.

pub mod app;
pub mod decode;
pub mod text;
pub mod types;
