//! Feature toggling for the Rhino configuration directory.
//!
//! A feature is enabled exactly when its marker is present in the
//! configuration directory. This crate holds the rules that decide what an
//! enable or disable request does: which markers it concerns, which
//! transitions are legal, in what order the marker store and the system are
//! changed, and how failures are reported. The caller performs the actions
//! the engine asks for and hands back what happened.

pub mod feature;
pub mod variants;
pub mod store;
pub mod effector;
pub mod engine;
pub mod rehearsal;
pub mod laws;
pub mod commands;
pub mod cli;
pub mod messages;
