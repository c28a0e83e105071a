//! Core of a network reachability monitor.
//!
//! The library holds the verified logic of the monitor: the outage-detection
//! state machine, the capped sequence-numbered log buffer, the classification
//! of probe output into a one-line summary, the code-page aware decoding of
//! captured probe bytes, the SMTP settings model with its legacy TLS fallback,
//! the formatting of log lines and log file paths, and the start/stop
//! lifecycle of a monitoring run.  Process spawning, file writes, timers and
//! the actual mail transport live outside the library and hand it plain
//! values.

pub mod detector;
pub mod logbuf;
pub mod logfmt;
pub mod classify;
pub mod decode;
pub mod settings;
pub mod mailer;
pub mod monitor;
pub mod controller;
