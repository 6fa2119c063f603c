//! A terminal quiz that drills hexadecimal/decimal numeral conversion.
//!
//! This crate holds the verified core of the game: configuration parsing,
//! bounded random challenge generation, the per-round state machine
//! (prompt rendering, answer parsing, scoring), session statistics, and
//! the closing report. I/O and signal plumbing live outside the library.

pub mod config;
pub mod numeral;
pub mod rng;
pub mod round;
pub mod stats;
