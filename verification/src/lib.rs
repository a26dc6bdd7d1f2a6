//! Hiding files by name.
//!
//! A file is hidden when the last component of its path starts with a marker
//! character, `.` unless another one is chosen. This library classifies paths,
//! computes the hidden and the visible form of a path, and decides which
//! renames a tool has to make. It never touches the disk itself: paths are
//! byte strings, and every function that leads to a rename returns the rename
//! for the caller to perform.

pub mod err;
pub mod path;
pub mod text;
pub mod renaming;
pub mod search;
pub mod global_args;
pub mod args;
pub mod toggle;
pub mod hider;
pub mod with_hide;
