//! Reconciles a tracked hook store with a repository's `.git/hooks`
//! directory through symbolic links.
//!
//! The library holds the decisions: how a probed path is classified, what a
//! hook's policy allows at a destination of each kind, and the step machine
//! that drives a whole push or pull run. The caller performs the filesystem
//! work that the machine asks for and reports back what happened.
use vstd::prelude::*;

pub mod path_utils;
pub mod hook;
pub mod decide;
pub mod reconcile;
pub mod config;
pub mod git;
pub mod laws;
