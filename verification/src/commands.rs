//! Recording of dispatched commands: the status and the stored exit code of a
//! command result.

use vstd::prelude::*;

verus! {

/// The status recorded for a command that exited with `exit_code`:
/// `completed` for 0, `failed` otherwise.
pub fn command_result_status(exit_code: i32) -> (r: &'static str)
    ensures
        r@ == (if exit_code == 0 { "completed"@ } else { "failed"@ }),
{
    if exit_code == 0 {
        "completed"
    } else {
        "failed"
    }
}

/// The exit code as its 16-bit column stores it: the low 16 bits of the
/// process exit code, read as signed.
pub fn stored_exit_code(exit_code: i32) -> (r: i16)
    ensures
        r == exit_code as i16,
{
    #[verifier::truncate]
    (exit_code as i16)
}

} // verus!
