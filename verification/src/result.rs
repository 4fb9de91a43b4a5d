//! Error type of this crate.

use vstd::prelude::*;
use crate::process::CapturedOutput;

verus! {

/// Error raised while running a command or supervising a process.
#[derive(Debug)]
pub enum Error {
    /// An OS-level failure during command or process execution;
    /// carries the reported message.
    IoError(String),
    /// The process exited with a non-zero status. The code is absent
    /// when the process was terminated by a signal.
    NonZeroExitCode { code: Option<i32>, output: CapturedOutput },
    /// The supervisor tried to kill a hanged process and the kill
    /// itself failed; `err` is the OS error number. The process is
    /// left behind for the operator to clean up, so this must be
    /// surfaced, never swallowed.
    Zombie { pid: u32, err: i32 },
    /// The child reported no process id: an invariant violation,
    /// fatal to the unit that observed it.
    ProcessVanished,
}

impl Error {
    /// Turns a finished process's captured state into the error for a
    /// non-zero exit. Only a failed status may be converted.
    pub fn from_output(output: CapturedOutput) -> (r: Error)
        requires
            !output.success(),
        ensures
            r == (Error::NonZeroExitCode { code: output.code, output }),
    {
        let code = output.code;
        Error::NonZeroExitCode { code, output }
    }
}

} // verus!
