//! The backend that reads the repository in process.
//!
//! The library that opens the repository is the caller's. What it hands
//! over is plain: names, ids in hexadecimal, status flags, and for a failed
//! call the kind of failure. What to make of them is decided here.

use vstd::prelude::*;

pub mod command;

verus! {

/// The kinds of failure that make a difference.
#[derive(Debug, Clone, Copy, PartialEq, Eq, Structural)]
pub enum ErrorCode {
    /// What was asked for does not exist.
    NotFound,
    /// The head points to a branch without commits.
    UnbornBranch,
    /// Anything else.
    Other,
}

/// A failed call into the repository.
#[derive(Debug, Clone, PartialEq, Eq)]
pub struct LibgitError {
    pub code: ErrorCode,
    pub message: String,
}

/// The outcome of a call where one kind of failure is no failure: it stands
/// for the absence of what was asked for, and `fallback` is the answer then.
pub open spec fn ignoring<T>(code: ErrorCode, result: Result<T, LibgitError>, fallback: T) -> Result<
    T,
    LibgitError,
> {
    match result {
        Ok(value) => Ok(value),
        Err(error) => if error.code == code {
            Ok(fallback)
        } else {
            Err(error)
        },
    }
}

/// Takes one kind of failure as the absence of what was asked for, and any
/// other as the failure it is.
pub fn ignore_error_code<T>(code: ErrorCode, result: Result<T, LibgitError>, fallback: T) -> (r:
    Result<T, LibgitError>)
    ensures
        r == ignoring(code, result, fallback),
{
    match result {
        Ok(value) => Ok(value),
        Err(error) => if error.code == code {
            Ok(fallback)
        } else {
            Err(error)
        },
    }
}

/// Tells whether the working directory lies in a repository, from the
/// attempt to open one: it does if that succeeded, it does not if none was
/// found, and any other failure stays one.
pub fn check_in_git_directory(opened: Result<(), LibgitError>) -> (inside: Result<
    bool,
    LibgitError,
>)
    ensures
        inside == match opened {
            Ok(_) => Ok::<bool, LibgitError>(true),
            Err(error) => if error.code == ErrorCode::NotFound {
                Ok(false)
            } else {
                Err(error)
            },
        },
{
    match opened {
        Ok(_) => Ok(true),
        Err(error) => if error.code == ErrorCode::NotFound {
            Ok(false)
        } else {
            Err(error)
        },
    }
}

} // verus!
