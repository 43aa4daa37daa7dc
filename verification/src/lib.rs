//! Core of a terminal multi-process supervisor.
//!
//! The library owns the logic: the per-process lifecycle state machine, the
//! emulated terminal screen with scrollback and copy-mode selection, the
//! event-loop decisions that turn inputs, process updates and remote commands
//! into state changes and side-effect requests, and the remote-control wire
//! protocol. Everything that touches the operating system (spawning children,
//! reading pseudo-terminals, drawing, networking) is carried out by a thin
//! unverified shell that executes the [`event::Effect`] values this library
//! hands back.

pub mod app;
pub mod cli;
pub mod encode;
pub mod event;
pub mod input_line;
pub mod key;
pub mod keymap;
pub mod laws;
pub mod layout;
pub mod proc;
pub mod remote;
pub mod screen;
pub mod state;
pub mod text;
pub mod theme;
pub mod ui;

pub use key::{Key, KeyCode};
