//! Verified core of a shim that forwards `git` invocations to the `git.exe`
//! bundled inside a per-user GitHub Desktop installation.

use vstd::prelude::*;

use crate::error::{spec_message, ShimError};

pub mod error;
pub mod os;
pub mod resolution;
pub mod resolver;

verus! {

/// The byte that a signed child exit code collapses to.
pub open spec fn spec_clamp_exit(code: int) -> int {
    if code < 0 {
        128
    } else {
        code % 256
    }
}

/// Clamp a signed exit code to the unsigned byte that a process exit status accepts.
///
/// - Negative values (Unix signal-style returns) collapse to `128`, matching
///   the POSIX `128 + signo` convention without recovering the signal number.
/// - Otherwise, take the low 8 bits, mirroring what `wait(2)` exposes.
pub fn clamp_exit(code: i32) -> (res: u8)
    ensures
        res as int == spec_clamp_exit(code as int),
{
    if code < 0 {
        128
    } else {
        assert((code & 0xFF) as u8 as int == code as int % 256) by (bit_vector)
            requires
                code >= 0,
        ;
        (code & 0xFF) as u8
    }
}

/// The exit code the shim reports for any failure of its own.
pub const FAILURE_EXIT: u8 = 127;

/// What the shim prints before a failure's message.
pub const DIAGNOSTIC_PREFIX: &'static str = "git-shim: ";

/// The exit status of the shim for the outcome of a run: the child's exit
/// code clamped to a byte, or [`FAILURE_EXIT`] for any [`ShimError`].
pub fn exit_status(outcome: &Result<i32, ShimError>) -> (res: u8)
    ensures
        match outcome {
            Ok(code) => res as int == spec_clamp_exit(*code as int),
            Err(_) => res == FAILURE_EXIT,
        },
{
    match outcome {
        Ok(code) => clamp_exit(*code),
        Err(_) => FAILURE_EXIT,
    }
}

/// The single-line diagnostic printed to stderr for a failure.
pub fn diagnostic(err: &ShimError) -> (res: String)
    ensures
        res@ == DIAGNOSTIC_PREFIX@ + spec_message(err@),
{
    let mut out = String::from_str(DIAGNOSTIC_PREFIX);
    let text = err.message();
    out.append(text.as_str());
    out
}

/// The environment variable that asks the shim to print the path of the
/// resolved `git.exe` instead of running it.
pub const PRINT_RESOLVED_VAR: &'static str = "GIT_SHIM_PRINT_RESOLVED";

/// Whether the value of [`PRINT_RESOLVED_VAR`] asks for the resolved path to
/// be printed: it does when it is `1`.
pub fn print_resolved_requested(value: Option<&str>) -> (res: bool)
    ensures
        res == (value matches Some(v) && v@ == "1"@),
{
    proof {
        reveal_strlit("1");
    }
    match value {
        Some(v) => {
            let res = v.unicode_len() == 1 && v.get_char(0) == '1';
            proof {
                if res {
                    assert(v@ =~= "1"@);
                }
            }
            res
        },
        None => false,
    }
}

/// Exit codes that fit in a byte pass through unchanged.
pub proof fn lemma_clamp_exit_keeps_bytes(code: int)
    requires
        0 <= code <= 255,
    ensures
        spec_clamp_exit(code) == code,
{
}

/// Non-negative exit codes keep only their low 8 bits, so codes that differ by
/// a multiple of 256 clamp alike; every negative code clamps to 128.
pub proof fn lemma_clamp_exit_low_byte(code: int, k: nat)
    ensures
        code >= 0 ==> spec_clamp_exit(code + 256 * k) == spec_clamp_exit(code),
        code < 0 ==> spec_clamp_exit(code) == 128,
{
    if code >= 0 {
        assert((code + 256 * k) % 256 == code % 256) by (nonlinear_arith)
            requires
                code >= 0,
        ;
    }
}

} // verus!
