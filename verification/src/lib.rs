//! A typing-speed test as a state machine.
//!
//! A [`session::TypingSession`] follows a cursor through a reference text,
//! judges every keystroke and counts what was typed. A
//! [`metrics::MetricsRecorder`] turns the running counters into one speed
//! and one error sample per second. [`config::SessionConfig`] holds the
//! settings of a test and the rules of the settings bar. Front ends own the
//! clock, the keyboard and the screen; they hand in plain values and draw
//! from the getters.
//!
//! Time is a reading of a monotonic clock in whole milliseconds.

pub mod app;
pub mod bar;
pub mod config;
pub mod frame;
pub mod judgment;
pub mod metrics;
pub mod model;
pub mod session;
