//! Display options chosen on the command line, and the process exit code.

use vstd::prelude::*;

verus! {

/// What the operator asked for: show redundant tag columns, show ratings,
/// and the hidden extra rating scale.
#[derive(Clone, Debug)]
pub struct MusicOpts {
    pub verbose: bool,
    pub ratings: bool,
    pub easter: bool,
}

impl Default for MusicOpts {
    fn default() -> (r: Self)
        ensures
            !r.verbose,
            !r.ratings,
            !r.easter,
    {
        MusicOpts { verbose: false, ratings: false, easter: false }
    }
}

/// Why the process is exiting.
#[derive(Clone, Copy, Debug, PartialEq, Eq, Structural)]
pub enum ExitCode {
    Unknown,
    Quit,
    Error,
}

impl Default for ExitCode {
    fn default() -> (r: Self)
        ensures
            r == ExitCode::Unknown,
    {
        ExitCode::Unknown
    }
}

/// The process status for an exit reason: only a server error is a failure.
pub fn exit_status(code: ExitCode) -> (r: u8)
    ensures
        r == (if code == ExitCode::Error {
            1u8
        } else {
            0u8
        }),
{
    match code {
        ExitCode::Unknown | ExitCode::Quit => 0,
        ExitCode::Error => 1,
    }
}

} // verus!
