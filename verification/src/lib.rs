//! Facts about the repository around a directory, rendered as one prompt line.

pub mod color;
pub mod config;
pub mod detect;
pub mod error;
pub mod git;
pub mod jj;
pub mod output;
pub mod prompt;
pub mod text;
