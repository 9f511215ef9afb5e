//! Interactive front-end state for a Kubernetes schema lookup tool.
//!
//! The library owns the session state (input mode, editable text buffer,
//! last lookup output), the keystroke dispatch state machine, and the pure
//! projection of that state to a drawable three-pane layout. Terminal I/O
//! and the external `kubectl` invocations live outside the library; their
//! results are handed in as plain values.

pub mod app;
pub mod render;
