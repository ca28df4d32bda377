//! Builds a single-line, colour-coded shell prompt, with the state of the
//! version-control repository that the shell stands in.

pub mod style;
pub mod text;
pub mod head_file;
pub mod segment;
pub mod repository;
pub mod prompt;
