//! Command assembly for two small wrappers around `cargo`: one chains the
//! usual check, test, format and lint steps into a single shell command, the
//! other calls clippy with a curated list of lints.
//!
//! Nothing here starts a process. Each wrapper is a function from its options
//! to the [`command::CommandLine`] to spawn, and [`command::exit_code`] turns
//! what became of the child into the code to exit with.

pub mod clippy_flavor;
pub mod command;
pub mod lints;
pub mod rcheck;
pub mod rclippy;
pub mod text;
