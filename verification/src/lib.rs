//! Verified core of a command-line client for a remote screenshot-rendering
//! service. The rendering happens server-side; this library holds the logic
//! that is worth stating precisely: the polling state machine that drives a
//! single asynchronous job to a terminal state, the batch orchestrator that
//! fans a bulk request out and reconciles partial failure, the watch loop
//! that repeats a capture on a fixed cadence, and the shared URL, filename,
//! formatting and configuration rules around them. Network and file I/O live
//! outside the library and hand it plain values.

pub mod args;
pub mod batch;
pub mod config;
pub mod error;
pub mod files;
pub mod gallery;
pub mod devices;
pub mod format;
pub mod graphs;
pub mod job;
pub mod materialize;
pub mod poller;
pub mod progress;
pub mod request;
pub mod shell;
pub mod strutil;
pub mod url;
pub mod watch;
