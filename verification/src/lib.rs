//! Decision logic of a monitor for a `PellX` pellets burner.
//!
//! The burner's controller board closes a circuit while it operates normally
//! and opens it when it enters an error state. A small device polls that
//! circuit and pushes notifications when the reading changes. This crate
//! holds the verified part of that program: the monitor state machine that
//! decides which notification a reading calls for, the plan of which
//! notifiers to construct from the settings, and the resolution of the
//! configuration file location.

pub mod paths;
pub mod exit;
pub mod config_location;
pub mod monitor;
pub mod settings;
pub mod notifiers;
pub mod startup;
