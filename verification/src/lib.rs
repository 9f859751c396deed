//! A verified core for an interactive terminal front-end.
//!
//! The crate keeps a shell session's screen grid in sync with the byte
//! stream the shell emits and turns that grid into a list of renderable,
//! fully colored cells.  The terminal-state engine and the pseudo-terminal
//! are outside collaborators; everything that decides or computes here is
//! specified and verified.

pub mod cell;
pub mod color;
pub mod coordinator;
pub mod geometry;
pub mod keyboard;
pub mod terminal;
