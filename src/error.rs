use vstd::prelude::*;
use vstd::string::StringExecFns;

use crate::digest::Digest;

verus! {

/// What went wrong inside a store, for callers that need finer handling than
/// "internal error".
#[derive(Clone, Copy, Debug, PartialEq, Eq, Structural)]
pub enum ErrorKind {
    /// The bytes received do not hash to the requested digest.
    IntegrityMismatch,
    /// The underlying storage failed.
    Io,
    /// A package identifier or digest text is malformed.
    InvalidIdentifier,
}

/// The failures a content store reports.
#[derive(Clone, Debug)]
pub enum ContentStoreError {
    /// No committed content exists under this digest.
    ContentNotFound(Digest),
    /// Any other failure, with its kind and a diagnostic message.
    ContentStoreInternalError(ErrorKind, String),
}

impl ContentStoreError {
    pub open spec fn has_kind(&self, kind: ErrorKind) -> bool {
        match self {
            ContentStoreError::ContentStoreInternalError(k, _) => k == kind,
            _ => false,
        }
    }

    /// An internal error of the given kind.
    pub fn internal(kind: ErrorKind, message: &str) -> (r: ContentStoreError)
        ensures
            r.has_kind(kind),
            r matches ContentStoreError::ContentStoreInternalError(_, m) && m@ == message@,
    {
        ContentStoreError::ContentStoreInternalError(kind, String::from_str(message))
    }

    /// The kind of an internal error; `None` for a missing digest.
    pub fn kind(&self) -> (r: Option<ErrorKind>)
        ensures
            self is ContentNotFound <==> r is None,
            r matches Some(k) ==> self.has_kind(k),
    {
        match self {
            ContentStoreError::ContentNotFound(_) => None,
            ContentStoreError::ContentStoreInternalError(k, _) => Some(*k),
        }
    }
}

} // verus!
