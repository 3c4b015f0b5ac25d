//! The error taxonomy of the batch engine, and the scanner's failure policy.
//!
//! Scanning-level failures are fatal to a whole invocation; per-file failures
//! are fatal to that file alone. The two functions here map a scanner
//! outcome, handed in as a plain optional value, to the error the policy
//! prescribes.

use vstd::prelude::*;

verus! {

/// Every failure the batch engine reports. Scratch-file deletion failures
/// and degraded tag reads are tolerated and only logged, so they carry no
/// variant of their own here except where a caller needs to name them.
#[derive(Debug, Clone, Copy, PartialEq, Eq, Structural)]
pub enum BatchError {
    /// The directory does not exist, is not a directory, or cannot be read.
    /// Fatal: aborts the whole batch.
    DirectoryUnreadable,
    /// One directory entry could not be read. Fatal: aborts the whole batch.
    EntryUnreadable,
    /// The file to mutate does not exist. Fatal for that file only.
    FileNotFound,
    /// Copying to or from the scratch location failed. Fatal for that file.
    CopyFailed,
    /// Persisting the tag into the scratch copy failed. Fatal for that file.
    TagWriteFailed,
    /// The destination name of a rename already exists. Fatal for that file.
    RenameCollision,
    /// Removing the scratch file failed after a successful commit.
    /// Tolerated: logged, never reported as the operation's failure.
    DeleteScratchFailed,
}

impl BatchError {
    /// A fixed human-readable description of the failure.
    pub fn describe(&self) -> (r: String)
        ensures
            match *self {
                BatchError::DirectoryUnreadable => r@ == "failed to read directory"@,
                BatchError::EntryUnreadable => r@ == "failed to read directory entry"@,
                BatchError::FileNotFound => r@ == "file does not exist"@,
                BatchError::CopyFailed => r@ == "failed to copy file"@,
                BatchError::TagWriteFailed => r@ == "failed to write tag"@,
                BatchError::RenameCollision => r@ == "destination name already exists"@,
                BatchError::DeleteScratchFailed => r@ == "failed to delete scratch file"@,
            },
    {
        match *self {
            BatchError::DirectoryUnreadable => "failed to read directory".to_owned(),
            BatchError::EntryUnreadable => "failed to read directory entry".to_owned(),
            BatchError::FileNotFound => "file does not exist".to_owned(),
            BatchError::CopyFailed => "failed to copy file".to_owned(),
            BatchError::TagWriteFailed => "failed to write tag".to_owned(),
            BatchError::RenameCollision => "destination name already exists".to_owned(),
            BatchError::DeleteScratchFailed => "failed to delete scratch file".to_owned(),
        }
    }
}

/// The scanner's directory-level policy: a listing that could not be read is
/// `DirectoryUnreadable`, and nothing of the batch proceeds.
pub fn scan_listing(listing: Option<Vec<String>>) -> (r: Result<Vec<String>, BatchError>)
    ensures
        match listing {
            Some(names) => r == Ok::<Vec<String>, BatchError>(names),
            None => r == Err::<Vec<String>, BatchError>(BatchError::DirectoryUnreadable),
        },
{
    match listing {
        Some(names) => Ok(names),
        None => Err(BatchError::DirectoryUnreadable),
    }
}

/// The scanner's entry-level policy: one unreadable entry is
/// `EntryUnreadable`, fatal for the whole batch.
pub fn entry_name(entry: Option<String>) -> (r: Result<String, BatchError>)
    ensures
        match entry {
            Some(name) => r == Ok::<String, BatchError>(name),
            None => r == Err::<String, BatchError>(BatchError::EntryUnreadable),
        },
{
    match entry {
        Some(name) => Ok(name),
        None => Err(BatchError::EntryUnreadable),
    }
}

} // verus!
