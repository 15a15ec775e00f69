//! The shared core of a remotely controlled thermostat.
//!
//! A sensor reports the measured temperature, an operator sets a target
//! temperature and a manual switch through a chat dialogue, and a relay
//! controller polls whether to heat right now. This crate holds the record
//! behind all three, the rule that derives "heat now" from it, and the
//! transition table of the operator's dialogue. No function here reads a
//! clock: where the time matters it is an argument, so each function is a
//! function of its arguments alone.

pub mod clock;
pub mod dialogue;
pub mod gateway;
pub mod heating;
pub mod history;
pub mod server;
pub mod temperature;
