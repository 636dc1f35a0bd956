//! A layered command-dispatch engine for an interactive terminal
//! application, together with the small widget elements it paints with.
//!
//! Producers build a [`cmd::Cmd`] and pick a [`layer::Layer`]; the
//! [`executor::Executor`] routes each command to exactly one destination
//! handler, identified by an [`invoke::Invocation`]. Unknown names are
//! dropped silently so that stale key-bindings never crash a session.

pub mod bar;
pub mod cmd;
pub mod executor;
pub mod invoke;
pub mod laws;
pub mod layer;
pub mod paragraph;
pub mod route;
pub mod state;
pub mod tui;
