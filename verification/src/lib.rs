//! Core of a turn-based two-player board game: the rules engine that owns the
//! 3x3 grid and its turn/status state machine, the adversarial search engine
//! that picks moves by depth-limited minimax, and the history log that can
//! replay a persisted move list through the rules engine to validate it.
//!
//! Console and HTTP front ends live outside this crate; they hand plain values
//! in and take plain values back.

pub mod ai;
pub mod error;
pub mod game;
pub mod history;
pub mod player;
pub mod server;
