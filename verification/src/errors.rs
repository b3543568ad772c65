//! The error taxonomy of cache setup.
//!
//! Only two things can fail fatally: taking the lock and creating the
//! directories.  Both abort the build setup and carry the path they failed
//! on.  An absent cache root is not an error (resolution yields `None`), and
//! a failed backup-exclusion hint is swallowed where it occurs, so neither
//! appears here.

use vstd::prelude::*;

verus! {

/// A fatal cache setup failure, with the path it occurred on and the
/// underlying system error rendered as text.
pub enum LayoutError {
    /// The exclusive lock on the version directory could not be taken at
    /// all (as opposed to blocking until it is free).
    LockAcquisitionFailure { path: String, detail: String },
    /// One of the layout's directories could not be created.
    DirectoryCreationFailure { path: String, detail: String },
}

impl LayoutError {
    /// One line of text describing the failure.
    pub fn describe(&self) -> (s: String)
        ensures
            ((*self) matches LayoutError::LockAcquisitionFailure { path, detail } ==> s@
                == "failed to lock the cache directory at "@ + path@ + ": "@ + detail@),
            ((*self) matches LayoutError::DirectoryCreationFailure { path, detail } ==> s@
                == "failed to create the cache directory "@ + path@ + ": "@ + detail@),
    {
        match self {
            LayoutError::LockAcquisitionFailure { path, detail } => {
                let mut s = String::from_str("failed to lock the cache directory at ");
                s.append(path.as_str());
                s.append(": ");
                s.append(detail.as_str());
                s
            },
            LayoutError::DirectoryCreationFailure { path, detail } => {
                let mut s = String::from_str("failed to create the cache directory ");
                s.append(path.as_str());
                s.append(": ");
                s.append(detail.as_str());
                s
            },
        }
    }
}

} // verus!
