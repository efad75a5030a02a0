//! Work-distribution engine for mirroring a directory tree: the decision
//! whether a file needs transferring, the shared work queue with its run
//! counters, the idle backoff of the workers, completion detection, and the
//! accounting of the byte-transfer strategies.
//!
//! Nothing in this crate touches the file system, the clock or a scheduler.
//! Callers read metadata, sleep and move bytes; the functions here decide
//! what is to be done and keep the books.
//!
//! - `files`: work items, the transfer decision, the producer
//! - `thmod`: the work queue, the run counters, progress lines
//! - `daemon`: the steps of a worker, its backoff, the plan for one item
//! - `asyncmod`: byte counts and the integrity check of a transfer
//! - `atomic`: the integer cell behind the counters
//! - `config`: settings from the command line
//! - `pattern`, `text`, `iomod`: regular expressions, numbers and paths as
//!   text, colours

pub mod asyncmod;
pub mod atomic;
pub mod config;
pub mod daemon;
pub mod files;
pub mod iomod;
pub mod pattern;
pub mod text;
pub mod thmod;
