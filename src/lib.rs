//! Decides whether newer Waydroid system and vendor images are published.
//!
//! The library holds the logic of the upgrade check: the configuration
//! defaults, the reading of the recorded image timestamps, the reduction of a
//! remote response to one timestamp, the per-channel comparison and the choice
//! of the final action with its exit code.
pub mod config;
pub mod datetime;
pub mod decision;
pub mod response;
