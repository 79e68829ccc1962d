//! The decision on whether a path may be scanned for images.

use vstd::prelude::*;
use crate::errors::RunError;

verus! {

/// What the filesystem reports about the given path.
#[derive(Clone, Copy, Debug, PartialEq, Eq, Structural)]
pub enum PathStatus {
    /// No entry exists at the path.
    Missing,
    /// The path exists but is not a directory (a regular file, say).
    NotDirectory,
    /// The path names a directory.
    Directory,
}

/// Confirms that `path` names a directory, given what the filesystem
/// reports about it; anything else is an input error that names the path.
pub fn ensure_directory(path: &String, status: PathStatus) -> (r: Result<(), RunError>)
    ensures
        r is Ok <==> status is Directory,
        status is Missing ==> (r matches Err(e) && e matches RunError::PathDoesNotExist(p)
            && p@ == path@),
        status is NotDirectory ==> (r matches Err(e) && e matches RunError::PathNotDirectory(p)
            && p@ == path@),
{
    match status {
        PathStatus::Missing => Err(RunError::PathDoesNotExist(path.clone())),
        PathStatus::NotDirectory => Err(RunError::PathNotDirectory(path.clone())),
        PathStatus::Directory => Ok(()),
    }
}

} // verus!
