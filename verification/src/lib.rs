//! Re-run a templated command whenever a watched file is closed after a write.
//!
//! The crate holds the decisions of the watcher: which events trigger a run,
//! how watch handles resolve to paths, how the command line is built, which
//! process is current, and what the built-in pager shows. Reading events,
//! spawning processes and talking to the terminal are left to the caller.

pub mod command;
pub mod fwatch;
pub mod pager;
pub mod pager2;
pub mod path;
pub mod relay;
pub mod screen;
pub mod scroll;
pub mod supervisor;
pub mod text;
pub mod watch;
