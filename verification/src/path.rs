//! Path resolution and validation.
//!
//! The input path is resolved by concatenating the working directory, a
//! separator, and the user-supplied path verbatim. Note the resolution is
//! deliberately naive: an already-absolute input is prefixed all the same,
//! so such an input yields a double-prefixed path. The contract states the
//! concatenation exactly, which keeps the behaviour explicit.
//!
//! Validation itself is a pure decision: the caller looks the path up on
//! the filesystem and hands in what it found, and `verify_filepath` says
//! which of the findings are acceptable and which error each rejection
//! carries.

use vstd::prelude::*;
use vstd::string::StringExecFns;

verus! {

/// Why a resolved path was rejected.
#[derive(Clone, Copy, Debug, PartialEq, Eq, Structural)]
pub enum PathError {
    /// The path could not be looked up at all: missing file, permission
    /// failure, or any other metadata error.
    CannotAccess,
    /// The path exists but does not name a regular file (a directory,
    /// for instance).
    NotAFile,
}

impl PathError {
    /// The diagnostic line for this rejection of `filepath`.
    pub fn message(&self, filepath: &str) -> (r: String)
        ensures
            *self == PathError::CannotAccess ==> r@ == "Cannot access file "@ + filepath@,
            *self == PathError::NotAFile ==> r@ == "Must specify a valid file"@,
    {
        match self {
            PathError::CannotAccess => {
                let mut m = "Cannot access file ".to_owned();
                m.append(filepath);
                m
            },
            PathError::NotAFile => "Must specify a valid file".to_owned(),
        }
    }
}

/// Resolves a user-supplied path against the working directory: the
/// working directory, a `/` separator, then the supplied path verbatim.
pub fn get_absolute_filepath(cwd: &str, filename: &str) -> (r: String)
    ensures
        r@ == cwd@ + "/"@ + filename@,
{
    let mut r = cwd.to_owned();
    r.append("/");
    r.append(filename);
    r
}

/// Decides whether a resolved path may be opened, from what the
/// filesystem lookup found: `accessible` says the path's metadata could
/// be read at all, `is_file` says it names a regular file. Inaccessible
/// paths are rejected first; accessible non-files are rejected as such;
/// everything else is accepted.
pub fn verify_filepath(accessible: bool, is_file: bool) -> (r: Result<(), PathError>)
    ensures
        r is Ok <==> accessible && is_file,
        r == Err::<(), PathError>(PathError::CannotAccess) <==> !accessible,
        r == Err::<(), PathError>(PathError::NotAFile) <==> accessible && !is_file,
{
    if !accessible {
        Err(PathError::CannotAccess)
    } else if !is_file {
        Err(PathError::NotAFile)
    } else {
        Ok(())
    }
}

} // verus!
