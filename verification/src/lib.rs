//! A one-line, shell-embeddable summary of a git working tree: the branch,
//! how far it is ahead of and behind its upstream, the pending changes and
//! the stashes.
//!
//! The library holds the rules: how a status listing is classified and
//! tallied, which repository queries are made and in which order, how their
//! answers are read, and how the resulting snapshot is rendered for a shell.
//! Running `git`, opening a repository and reading configuration files are
//! left to the caller.

pub mod config;
pub mod git;
pub mod process;
pub mod terminal;
pub mod text;
