//! Two small helpers for an installer tool: expansion of the home-directory
//! shorthand in path strings, and terminal-aware text emphasis.

pub mod path;
pub mod print;
