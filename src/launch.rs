use vstd::prelude::*;

use crate::document::DocumentState;

verus! {

/// What the command line gave for the `file` option.
pub enum FileArgument {
    /// The option was not given.
    Absent,
    /// The option was given without a text value (a flag, a list, nothing).
    NoValue,
    /// The option was given with this text.
    Text(String),
}

/// Why startup cannot go on.
#[derive(Clone, Copy, Debug, PartialEq, Eq, Structural)]
pub enum LaunchError {
    /// No `file` option on the command line.
    MissingFile,
    /// A `file` option without a usable path.
    EmptyFile,
}

impl LaunchError {
    /// The process exit code for a startup that fails this way; never zero.
    pub fn exit_code(&self) -> (r: i32)
        ensures
            r != 0,
    {
        match self {
            LaunchError::MissingFile => 2,
            LaunchError::EmptyFile => 2,
        }
    }
}

/// The error, if any, that startup meets with this `file` option.
pub open spec fn launch_outcome(arg: FileArgument) -> Result<Seq<char>, LaunchError> {
    match arg {
        FileArgument::Absent => Err(LaunchError::MissingFile),
        FileArgument::NoValue => Err(LaunchError::EmptyFile),
        FileArgument::Text(s) => if s@.len() == 0 {
            Err(LaunchError::EmptyFile)
        } else {
            Ok(s@)
        },
    }
}

/// Resolves the document to edit from the `file` option: the option must be
/// present and carry a non-empty path.
pub fn resolve_svg_file(arg: FileArgument) -> (r: Result<DocumentState, LaunchError>)
    ensures
        match launch_outcome(arg) {
            Ok(p) => r is Ok && r->Ok_0.path() == p,
            Err(e) => r == Err::<DocumentState, LaunchError>(e),
        },
{
    match arg {
        FileArgument::Absent => Err(LaunchError::MissingFile),
        FileArgument::NoValue => Err(LaunchError::EmptyFile),
        FileArgument::Text(s) => {
            if s.as_str().is_empty() {
                Err(LaunchError::EmptyFile)
            } else {
                Ok(DocumentState::new(s))
            }
        },
    }
}

} // verus!
