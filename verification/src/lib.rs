//! Decision core of `psst`, a Matrix notification daemon.
//!
//! The crate holds what the daemon decides and remembers: configuration and its
//! per-room overrides, the notification filters, the history of posted
//! notifications, the handling of each kind of room event, and the interactive
//! flows (login, logout, verification, key import). Network, disk and desktop
//! access belong to the program around it.

pub mod clock;
pub mod config;
pub mod decide;
pub mod filters;
pub mod handlers;
pub mod ids;
pub mod laws;
pub mod notification;
pub mod runtime;
pub mod session;
pub mod state;
pub mod table;
pub mod text;
pub mod verify;
