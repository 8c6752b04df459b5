//! Core state of a terminal dashboard for desktop media players: a per-player
//! snapshot cache with time-to-live, the roster bookkeeping that keeps the
//! cache aligned with the set of known players, the selection/scroll state
//! machine that drives the list view, and the single-key input dispatcher.
//!
//! Everything here is plain data and decisions; the transport that talks to
//! the players, the terminal drawing, and the settings file live outside and
//! hand this crate plain values.

pub mod audio;
pub mod config;
pub mod dispatch;
pub mod nav;
pub mod text;
