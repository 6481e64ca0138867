//! Timekeeper: the verified core of a large-display clock with a
//! relative/absolute target timestamp and a countdown readout.

pub mod action;
pub mod controller;
pub mod display;
pub mod focus;
pub mod input;
pub mod laws;
pub mod local;
pub mod state;
pub mod text;
pub mod time;

pub use time::{delta_now, timenow, TimeDelta, Timestamp};
