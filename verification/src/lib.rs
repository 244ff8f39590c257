//! Rendering of the version-control segment of a shell prompt.
//!
//! The crate parses the line-oriented output of `git status --porcelain=v2
//! --branch --show-stash` into a [`git_info::GitInfo`] record and encodes that
//! record, together with an optional in-progress operation, as a compact
//! symbol string.
//!
//! - [`text`] holds the character-level grammar: lines, trimming, fields and
//!   signed decimals.
//! - [`entry`] holds the patterns of the changed entries.
//! - [`git_info`] holds the status record and its parser.
//! - [`git_patch`] holds the operations that a repository can be in the
//!   middle of.
//! - [`prompt`] holds the encoder of the segment and the prompt line.
//! - [`laws`] states what holds of the parser and the encoder on every input.

use vstd::prelude::*;

pub mod entry;
pub mod git_info;
pub mod git_patch;
pub mod laws;
pub mod prompt;
pub mod text;

verus! {

/// What can keep a prompt from being rendered.
#[derive(Clone, Copy, Debug, PartialEq, Eq, Structural)]
pub enum ZygalError {
    /// The current directory could not be determined.
    CurrentDirError,
    /// The prompt could not be formatted.
    FromatError,
    /// The `git status` process could not be started.
    GitSpawnError,
    /// The output of `git status` could not be read or is malformed.
    GitOutputError,
}

} // verus!
