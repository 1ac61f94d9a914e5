use vstd::prelude::*;

use crate::session::ExitCode;

verus! {

/// The command line could not be understood.
pub struct CliParseError {
    /// The usage text to show alongside the message; `None` falls back to the
    /// tool's general usage.
    pub usage: Option<String>,
    /// A human-readable description of what was wrong.
    pub error: String,
}

impl CliParseError {
    /// The process outcome that this error ends a command with.
    pub fn exit_code(&self) -> (r: ExitCode)
        ensures
            r == ExitCode::InvalidArguments,
    {
        ExitCode::InvalidArguments
    }
}

} // verus!
