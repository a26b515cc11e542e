//! The backend that asks the `git` program.

use crate::process::ProcessOutput;
use vstd::prelude::*;

pub mod command;

verus! {

/// The arguments of the probe that tells whether the working directory lies
/// in a repository.
pub open spec fn git_dir_probe() -> Seq<Seq<char>> {
    seq!["rev-parse"@, "--git-dir"@]
}

/// The arguments to run `git` with to learn whether the working directory
/// lies in a repository.
pub fn check_in_git_directory_args() -> (args: Vec<String>)
    ensures
        args.deep_view() == git_dir_probe(),
{
    let mut args: Vec<String> = Vec::new();
    args.push(String::from_str("rev-parse"));
    args.push(String::from_str("--git-dir"));
    assert(args.deep_view() =~= git_dir_probe());
    args
}

/// Reads the outcome of `git rev-parse --git-dir`: git succeeds exactly
/// inside a repository.
pub fn check_in_git_directory(output: &ProcessOutput) -> (inside: bool)
    ensures
        inside == output.success,
{
    output.success
}

} // verus!
