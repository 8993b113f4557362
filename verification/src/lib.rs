//! State machine and pure projections of a small host-metrics dashboard.
//!
//! The crate holds everything that decides: how an event changes the
//! application state and which effect it asks for, which processes are shown,
//! how a snapshot is written out as comma-separated text, and how the two
//! persisted preferences are read from and written to a TOML document.
//! Sampling the operating system, touching files, timers and drawing are left
//! to the caller, which runs the effects and feeds their results back in as
//! events.
//!
//! - [`monitor`] holds the state and applies messages to it; [`message`]
//!   holds the messages and effects; [`transition`] states the same
//!   transition on plain values, with the laws that hold of it.
//! - [`process`] selects and orders the rows of the process table.
//! - [`export`] lays out the export file.
//! - [`config`] reads and writes the preferences.
//! - [`metrics`] and [`overview`] hold the system-wide figures and their
//!   gauges.
//! - [`text`] holds what the others need of digits and substrings.

pub mod config;
pub mod export;
pub mod message;
pub mod metrics;
pub mod monitor;
pub mod overview;
pub mod process;
pub mod text;
pub mod transition;
