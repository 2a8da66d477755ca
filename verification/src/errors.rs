//! The failure taxonomy of a run. Every failure is converted to exactly one
//! terminal `Error` message carrying the text given here.

use vstd::prelude::*;

verus! {

/// Why a run failed.
#[derive(Debug)]
pub enum UpdateError {
    /// A required input was missing: the package path or the target directory.
    InvalidInput(String),
    /// The resolved payload root does not exist after extraction.
    NotFound(String),
    /// The archive could not be opened or an entry could not be decoded.
    ArchiveError(String),
    /// A file-system create or copy operation failed.
    IoError(String),
}

impl UpdateError {
    /// The human-readable text that the terminal `Error` message carries.
    pub open spec fn message_view(&self) -> Seq<char> {
        match self {
            UpdateError::InvalidInput(s) => s@,
            UpdateError::NotFound(s) => s@,
            UpdateError::ArchiveError(s) => s@,
            UpdateError::IoError(s) => s@,
        }
    }

    /// Borrows the error's message text.
    pub fn message(&self) -> (r: &str)
        ensures
            r@ == self.message_view(),
    {
        match self {
            UpdateError::InvalidInput(s) => s.as_str(),
            UpdateError::NotFound(s) => s.as_str(),
            UpdateError::ArchiveError(s) => s.as_str(),
            UpdateError::IoError(s) => s.as_str(),
        }
    }
}

} // verus!
