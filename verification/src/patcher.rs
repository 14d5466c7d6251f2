//! The decisions of the patch pipeline: strip the module through an external
//! object-copy utility, then append the `external_debug_info` section.
//!
//! Launching the subprocess and writing the file are I/O and live in the
//! surrounding program; this module fixes the argument list handed to the
//! stripper, decides from the subprocess outcome whether the patch may
//! proceed, and names the ways the pipeline can fail.

use vstd::prelude::*;
use vstd::string::StringExecFns;

verus! {

/// Why a patch operation failed.
#[derive(Debug)]
pub enum PatchError {
    /// The external stripper could not be started; carries the OS error text.
    ProcessLaunchError(String),
    /// The stripper ran but did not exit successfully; carries its exit code,
    /// or `None` if it was terminated by a signal.
    UnhandledStripFailure(Option<i32>),
    /// Opening or writing the stripped module failed; carries the OS error
    /// text.
    IoError(String),
}

/// What became of the external strip subprocess.
pub enum StripOutcome {
    /// The subprocess could not be started; carries the OS error text.
    LaunchFailed(String),
    /// The subprocess ran to completion with the given exit code, or `None`
    /// if it was terminated by a signal.
    Completed(Option<i32>),
}

/// The result that `check_strip_outcome` owes for a given outcome: only a
/// clean exit with code zero lets the patch proceed; a failed launch is a
/// launch error, and any other exit is an unhandled strip failure.
pub open spec fn strip_verdict(outcome: StripOutcome) -> Result<(), PatchError> {
    match outcome {
        StripOutcome::LaunchFailed(msg) => Err(PatchError::ProcessLaunchError(msg)),
        StripOutcome::Completed(code) => if code == Some(0i32) {
            Ok(())
        } else {
            Err(PatchError::UnhandledStripFailure(code))
        },
    }
}

/// Decides whether the strip step succeeded. A non-zero or missing exit code
/// is treated as fatal: proceeding would append a section onto a module whose
/// debug sections may still be present.
pub fn check_strip_outcome(outcome: StripOutcome) -> (r: Result<(), PatchError>)
    ensures
        r == strip_verdict(outcome),
{
    match outcome {
        StripOutcome::LaunchFailed(msg) => Err(PatchError::ProcessLaunchError(msg)),
        StripOutcome::Completed(code) => match code {
            Some(0i32) => Ok(()),
            _ => Err(PatchError::UnhandledStripFailure(code)),
        },
    }
}

/// The argument list for the external stripper: read the source module, write
/// the stripped module, and remove every section of the DWARF family.
pub fn strip_command_args(source_path: &str, stripped_path: &str) -> (args: Vec<String>)
    ensures
        args@.len() == 3,
        args@[0]@ == source_path@,
        args@[1]@ == stripped_path@,
        args@[2]@ == "--remove-section=.debug*"@,
{
    let mut args: Vec<String> = Vec::new();
    args.push(String::from_str(source_path));
    args.push(String::from_str(stripped_path));
    args.push(String::from_str("--remove-section=.debug*"));
    args
}

} // verus!
