//! The tool that offers the others as subcommands.

pub mod args;
