//! Orchestration core for interferogram evaluation runs.
//!
//! The crate validates a layered configuration document, discovers and
//! classifies data files into measurement arms, renders runnable script text
//! for the analysis runtime, aggregates batch and watch-session outcomes, and
//! summarizes a persisted result store into coefficient statistics.

pub mod classify;
pub mod config;
pub mod discover;
pub mod glob;
pub mod options;
pub mod audit;
pub mod render;
pub mod statistics;
pub mod text;
pub mod watch;
