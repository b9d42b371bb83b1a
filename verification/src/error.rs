//! What can go wrong between the command line and the registered agent.

use vstd::prelude::*;

verus! {

/// Why a run stopped.
#[derive(Debug, Clone, PartialEq, Eq)]
pub enum RunError {
    /// The period is not a number followed by `d`, `h`, `m` or `s`; the
    /// field holds what was given instead.
    InvalidPeriod(String),
    /// The program is neither a file nor on the search path.
    ProgramNotFound,
    /// A path that has to be written down cannot be decoded as text.
    InvalidFilepath,
    /// The host knows no home directory for the user.
    NoHomeDir,
    /// No working directory was given and the current one cannot be had.
    CurrentDirUnavailable,
    /// The descriptor cannot be written out, because one of its values has
    /// no text.
    RenderError,
    /// The host refused to create a directory, write a file or start a
    /// process; `path` is what it refused, `detail` its own words.
    IoError { path: String, detail: String },
    /// The service manager ran and reported failure.
    RegistrationFailed,
}

/// A `RunError` with its strings as sequences of characters.
pub enum RunErrorView {
    InvalidPeriod(Seq<char>),
    ProgramNotFound,
    InvalidFilepath,
    NoHomeDir,
    CurrentDirUnavailable,
    RenderError,
    IoError { path: Seq<char>, detail: Seq<char> },
    RegistrationFailed,
}

impl View for RunError {
    type V = RunErrorView;

    open spec fn view(&self) -> RunErrorView {
        match self {
            RunError::InvalidPeriod(input) => RunErrorView::InvalidPeriod(input@),
            RunError::ProgramNotFound => RunErrorView::ProgramNotFound,
            RunError::InvalidFilepath => RunErrorView::InvalidFilepath,
            RunError::NoHomeDir => RunErrorView::NoHomeDir,
            RunError::CurrentDirUnavailable => RunErrorView::CurrentDirUnavailable,
            RunError::RenderError => RunErrorView::RenderError,
            RunError::IoError { path, detail } => RunErrorView::IoError {
                path: path@,
                detail: detail@,
            },
            RunError::RegistrationFailed => RunErrorView::RegistrationFailed,
        }
    }
}

} // verus!
