//! The exit code that a finished child process reports.
//!
//! The child is spawned with inherited stdio and waited for; its exit code
//! is forwarded byte-for-byte.

use vstd::prelude::*;

verus! {

/// The exit code given for a child whose status carries none.
pub const CODELESS_EXIT: i32 = 1;

/// The exit code of a finished child, from the code its status carries.
/// A status without a code (a non-standard status reported by the
/// operating system) maps deterministically to [`CODELESS_EXIT`] rather than
/// panicking.
pub fn exit_code_of(status_code: Option<i32>) -> (res: i32)
    ensures
        res == match status_code {
            Some(c) => c,
            None => CODELESS_EXIT,
        },
{
    match status_code {
        Some(c) => c,
        None => CODELESS_EXIT,
    }
}

} // verus!
