//! Authentication and spatial-access-control core of a riddle-game backend.
//!
//! Users log in with a password and, where enabled, a second factor (a
//! time-based one-time code or a hardware authenticator), and then move
//! through a graph of rooms connected by riddle-gated doorways.  The store
//! of user, room and riddle records is held in memory; the surrounding
//! process is expected to load and persist it.

pub mod access;
pub mod auth;
pub mod challenge;
pub mod error;
pub mod second_factor;
pub mod store;
pub mod session;
pub mod strutil;
pub mod trusted;
pub mod types;
