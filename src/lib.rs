//! Verified core of a desktop control panel: the command pipeline that turns
//! an ordered list of command descriptions into program invocations, runs them
//! one at a time behind a single "a pipeline is running" guard, and decides
//! from each step's completion signals whether to advance, fail or cancel; and
//! the user configuration with its one-time startup migrations.
//!
//! Everything that touches the operating system (spawning processes, reading
//! pipes, searching the executable path, reading and writing files) is left to
//! the caller, which hands the library plain values and performs the actions
//! the library hands back.

pub mod command;
pub mod text;
pub mod resolve;
pub mod barrier;
pub mod executor;
pub mod laws;
pub mod config;
pub mod migrations;
