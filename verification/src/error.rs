//! The ways an extraction can fail, and the message each one shows.

use vstd::prelude::*;
use vstd::string::StringExecFns;

verus! {

/// Why an extraction stopped.
#[derive(Debug)]
pub enum ExtractError {
    /// The archive could not be opened or read.
    FileOpen { path: String, cause: String },
    /// The output directory tree could not be created.
    DirectoryCreate { path: String, cause: String },
    /// The archive's name ends in none of the known extensions.
    UnsupportedFormat,
    /// A decoder or archive reader rejected the data; `detail` is its own message.
    Malformed { detail: String },
    /// An entry could not be written to its destination.
    Write { detail: String },
}

impl ExtractError {
    /// The message shown for this error.
    pub open spec fn message_text(self) -> Seq<char> {
        match self {
            ExtractError::FileOpen { path, cause } => "Cannot open file: "@ + path@,
            ExtractError::DirectoryCreate { path, cause } => "Cannot create directory: "@ + path@,
            ExtractError::UnsupportedFormat =>
                "Unsupported archive format. Please use a known extension (.tar, .tar.gz, .tgz, .tar.xz, .tar.bz2, .zip)"@,
            ExtractError::Malformed { detail } => detail@,
            ExtractError::Write { detail } => detail@,
        }
    }

    /// Renders the message: a fixed headline and the path for the two failures
    /// that name one, the list of known extensions for an unsupported format,
    /// and the underlying message as it is for the rest.
    pub fn message(&self) -> (text: String)
        ensures
            text@ == self.message_text(),
    {
        match self {
            ExtractError::FileOpen { path, cause: _ } => {
                String::from_str("Cannot open file: ").concat(path.as_str())
            },
            ExtractError::DirectoryCreate { path, cause: _ } => {
                String::from_str("Cannot create directory: ").concat(path.as_str())
            },
            ExtractError::UnsupportedFormat => {
                String::from_str(
                    "Unsupported archive format. Please use a known extension (.tar, .tar.gz, .tgz, .tar.xz, .tar.bz2, .zip)",
                )
            },
            ExtractError::Malformed { detail } => detail.clone(),
            ExtractError::Write { detail } => detail.clone(),
        }
    }
}

} // verus!
