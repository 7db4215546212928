//! A watcher for permission hygiene on a directory tree.
//!
//! A rule table binds path patterns and filesystem-change operations to
//! ordered lists of tasks: verify permission bits, register a watch,
//! rescan a directory for further watch targets. This crate holds the
//! rule-matching and task-dispatch engine: patterns, the matcher that
//! classifies an observed (path, operation) pair, the dispatcher that
//! turns a matched pattern into a task plan, and the registry of watched
//! paths. Reading events from the operating system, fetching metadata
//! and establishing watches are left to the surrounding program, which
//! hands plain values in and carries the planned actions out.

pub mod engine;
pub mod matcher;
pub mod pattern;
pub mod task;
pub mod watcher;
