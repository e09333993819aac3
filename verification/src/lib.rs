//! The event-routing core of a single-window desktop shell.
//!
//! The shell has three input surfaces (the menu bar, the tray icon and the
//! window chrome) and one content view. Every handler in this crate is a pure
//! decision: it takes what the host delivered, updates the state the shell
//! owns, and hands back the commands that the host has to carry out. What the
//! commands mean is fixed by a small model of the live surface, and the
//! guarantees of the shell are proved against that model.

pub mod appearance;
pub mod command;
pub mod event;
pub mod identifier;
pub mod laws;
pub mod menu;
pub mod router;
pub mod surface;
pub mod text;
