//! Watches a named Linux input device, matches its key events against a
//! configured rule table, and decides which external commands to launch.
//!
//! The crate holds the decision logic of the daemon: decoding trigger
//! states, validating a configuration into an immutable rule table,
//! matching device names and key events, planning action dispatch for a
//! batch of events, and classifying the outcome of a finished command.
//! Reading devices, watching the device directory and spawning processes
//! are left to the surrounding program.

pub mod action;
pub mod config;
pub mod events;
pub mod keys;
pub mod locator;
pub mod report;
pub mod trigger;

pub use action::ActionSpec;
pub use config::{Config, ConfigError, RawRule, Rule};
pub use events::{BatchPlan, RawEvent};
pub use keys::KeyIdentity;
pub use locator::Phase;
pub use report::{LogLevel, Report, WaitOutcome};
pub use trigger::TriggerState;
