//! The tool that hides a file for as long as a command runs.

pub mod args;
pub mod session;
