//! Checks on local files.

use vstd::prelude::*;
use vstd::string::*;
use crate::text::join;

verus! {

/// The class of a file failure.
#[derive(Debug, Clone, Copy, PartialEq, Eq, Structural)]
pub enum FileErrorType {
    FileError,
    OtherError,
}

/// A file failure with its human-readable message.
#[derive(Debug)]
pub struct FileError {
    pub error_type: FileErrorType,
    pub message: String,
}

impl FileError {
    /// The human-readable message.
    pub fn message(&self) -> (text: String)
        ensures
            text@ == self.message@,
    {
        self.message.clone()
    }
}

/// Turns the answer of the file system, `exists`, into the outcome of the
/// check on `path`: a missing file is a `FileError` that names the path.
pub fn check_file_exists(path: &str, exists: bool) -> (checked: Result<(), FileError>)
    ensures
        checked is Ok <==> exists,
        checked matches Err(e) ==> e.error_type == FileErrorType::FileError && e.message@
            == "File not found: "@ + path@,
{
    if !exists {
        return Err(
            FileError {
                error_type: FileErrorType::FileError,
                message: join("File not found: ", path),
            },
        );
    }
    Ok(())
}

} // verus!
