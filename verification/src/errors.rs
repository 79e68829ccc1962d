//! The conditions that stop a run before a wallpaper is applied, with the
//! exit status and the diagnostic line each one carries.

use vstd::prelude::*;
use vstd::string::StringExecFns;

verus! {

/// Why a run stops. A usage error is an invocation-time argument error;
/// the other variants are input errors and carry the offending path.
pub enum RunError {
    /// The invocation did not carry exactly one positional argument.
    Usage,
    /// No filesystem entry exists at the path.
    PathDoesNotExist(String),
    /// The path exists but does not name a directory.
    PathNotDirectory(String),
    /// The directory holds no regular file with a recognized extension.
    NoImages(String),
}

impl RunError {
    /// The process exit status: 64 for a usage error, 66 for an input error.
    pub open spec fn spec_exit_code(&self) -> i32 {
        match self {
            RunError::Usage => 64,
            _ => 66,
        }
    }

    /// The diagnostic line that goes to standard error.
    pub open spec fn spec_message(&self) -> Seq<char> {
        match self {
            RunError::Usage => "Usage: wallrand <images-directory>"@,
            RunError::PathDoesNotExist(p) => "Path does not exist: "@ + p@,
            RunError::PathNotDirectory(p) => "Path is not a directory: "@ + p@,
            RunError::NoImages(p) => "No supported images found in directory: "@ + p@,
        }
    }

    pub fn exit_code(&self) -> (code: i32)
        ensures
            code == self.spec_exit_code(),
    {
        match self {
            RunError::Usage => 64,
            RunError::PathDoesNotExist(_) => 66,
            RunError::PathNotDirectory(_) => 66,
            RunError::NoImages(_) => 66,
        }
    }

    pub fn message(&self) -> (m: String)
        ensures
            m@ == self.spec_message(),
    {
        match self {
            RunError::Usage => String::from_str("Usage: wallrand <images-directory>"),
            RunError::PathDoesNotExist(p) => prefixed("Path does not exist: ", p),
            RunError::PathNotDirectory(p) => prefixed("Path is not a directory: ", p),
            RunError::NoImages(p) => prefixed("No supported images found in directory: ", p),
        }
    }
}

/// The prefix followed by the path, as one line.
fn prefixed(prefix: &str, path: &String) -> (m: String)
    ensures
        m@ == prefix@ + path@,
{
    let mut m = String::from_str(prefix);
    m.append(path.as_str());
    m
}

} // verus!
