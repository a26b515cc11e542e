//! What a finished child process left behind.

use vstd::prelude::*;

verus! {

/// The outcome of a child process: whether it exited with success, and what
/// it wrote to its standard output. Its standard error is discarded by
/// whoever runs it.
#[derive(Debug, Clone, PartialEq, Eq)]
pub struct ProcessOutput {
    pub success: bool,
    pub stdout: Vec<u8>,
}

/// The output that counts: that of a process that succeeded. A process that
/// failed counts as one that printed nothing.
pub open spec fn kept_output(success: bool, stdout: Seq<u8>) -> Seq<u8> {
    if success {
        stdout
    } else {
        Seq::empty()
    }
}

/// The output of a process, or nothing if the process failed.
pub fn process_with_ignore_exit_code(output: ProcessOutput) -> (stdout: Vec<u8>)
    ensures
        stdout@ == kept_output(output.success, output.stdout@),
{
    if output.success {
        output.stdout
    } else {
        Vec::new()
    }
}

} // verus!
