//! Helpers for maintaining a local package repository: choosing which
//! package files to remove, and planning the file operations and external
//! commands that each subcommand performs.
use vstd::prelude::*;

pub mod globs;
pub mod paths;
pub mod action;
pub mod cli;

verus! {

} // verus!
