//! The failures that the archiver tells apart.

use vstd::prelude::*;

verus! {

/// Why one unit of work (a variant, a post, a view entry) was given up.
///
/// None of these ends a run: the unit is reported and skipped.
#[derive(Clone, Copy, Debug, PartialEq, Eq, Structural)]
pub enum ArchiveError {
    /// The source URL of a variant does not parse.
    InvalidUrl,
    /// The path of the source URL has no usable final segment.
    NoFilename,
    /// The fetch did not complete with a success response.
    NetworkError,
    /// The file system refused a write.
    WriteError,
    /// A like, bookmark or list row names a post that the catalog lacks.
    DanglingReference,
    /// A link of the same name was already present in the view.
    AlreadyExists,
}

impl ArchiveError {
    /// The text that `message` returns for each failure.
    pub open spec fn message_spec(self) -> Seq<char> {
        match self {
            ArchiveError::InvalidUrl => "invalid URL"@,
            ArchiveError::NoFilename => "URL has no file name"@,
            ArchiveError::NetworkError => "network error"@,
            ArchiveError::WriteError => "write error"@,
            ArchiveError::DanglingReference => "dangling reference"@,
            ArchiveError::AlreadyExists => "already exists"@,
        }
    }

    /// A short description for log lines.
    pub fn message(&self) -> (text: String)
        ensures
            text@ == self.message_spec(),
    {
        match self {
            ArchiveError::InvalidUrl => String::from_str("invalid URL"),
            ArchiveError::NoFilename => String::from_str("URL has no file name"),
            ArchiveError::NetworkError => String::from_str("network error"),
            ArchiveError::WriteError => String::from_str("write error"),
            ArchiveError::DanglingReference => String::from_str("dangling reference"),
            ArchiveError::AlreadyExists => String::from_str("already exists"),
        }
    }
}

} // verus!
