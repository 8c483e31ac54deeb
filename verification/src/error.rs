//! Error values reported by the resolver and the runtime-directory validator.

use vstd::prelude::*;

verus! {

/// A failure cause specific to the base-directory rules, as opposed to a
/// failure of the underlying metadata read.
#[derive(Clone, Copy, Debug, PartialEq, Eq, Structural)]
pub enum XdgError {
    /// The home directory could not be determined while a home-relative
    /// fallback path was required.
    NoHomeDir,
    /// The runtime directory's permission bits are not exactly `0o700`.
    IncorrectPermissions,
    /// The runtime directory is not owned by the calling user.
    IncorrectOwner,
}

/// The cause carried by an [`Error`]: either a base-directory rule was
/// violated, or the metadata read itself failed. The `Io` payload holds the
/// operating system's error code for the failed read, when one was supplied.
#[derive(Clone, Copy, Debug, PartialEq, Eq)]
pub enum ErrorKind {
    Xdg(XdgError),
    Io(Option<i32>),
}

/// The error type returned by the fallible operations of this crate.
#[derive(Clone, Copy, Debug, PartialEq, Eq)]
pub struct Error {
    error_kind: ErrorKind,
}

impl Error {
    /// The cause held by this error, for use in specifications.
    pub closed spec fn kind_spec(&self) -> ErrorKind {
        self.error_kind
    }

    /// Wrap a cause as an [`Error`].
    pub fn new(error_kind: ErrorKind) -> (r: Error)
        ensures
            r.kind_spec() == error_kind,
    {
        Error { error_kind }
    }

    /// The cause held by this error.
    pub fn kind(&self) -> (k: ErrorKind)
        ensures
            k == self.kind_spec(),
    {
        self.error_kind
    }
}

} // verus!
