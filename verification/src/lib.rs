//! Core engine of a typing-practice game.
//!
//! A player reproduces a target phrase character by character while the
//! engine grades each keystroke, derives speed and accuracy metrics,
//! detects streaks of consecutively correct words, and runs the countdown
//! and scoring of the timed game modes.

pub mod combo;
pub mod engine;
pub mod metrics;
pub mod run;
pub mod session;
pub mod settings;
pub mod stats;
pub mod timed;
