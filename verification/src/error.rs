//! The error catalog of a run. Every fatal condition the pipeline can end
//! in is one of these; `UnsupportedTarget` is deliberately absent, since an
//! unsupported target is a per-item skip, not an error.

use vstd::prelude::*;
use crate::ident::{PackageIdent, PkgTarget};

verus! {

/// A failure reported by the depot: an HTTP-like status and its message.
#[derive(Debug, Clone, PartialEq, Eq)]
pub struct ApiFault {
    pub status: u16,
    pub message: String,
}

/// A fatal run condition. The pipeline is fail-fast: the first of these
/// encountered anywhere aborts the whole run.
#[derive(Debug, PartialEq, Eq)]
pub enum Error {
    /// No package identifiers were supplied; nothing to download.
    NoInputIdentifiers,
    /// A download directory could not be created, is not a directory, or
    /// is not writable. Carries the offending path.
    PermissionFailed(String),
    /// The depot knows no release matching an input identifier in the
    /// run's channel for the run's target.
    PackageNotFound { ident: PackageIdent, target: PkgTarget, channel: String },
    /// Any other depot-side failure during resolution or key fetch.
    ApiError(ApiFault),
    /// Every retry of an artifact fetch failed.
    DownloadFailed { ident: PackageIdent, target: PkgTarget, attempts: u64, last: ApiFault },
    /// The artifact header could not be parsed for its signer identity.
    ArtifactParse(String),
    /// A signer identity does not have the `name-<14-digit revision>` shape.
    InvalidKeyName(String),
    /// The artifact's signature does not check out against the local keys.
    VerificationFailed(String),
}

/// A permission error for `msg`, the shape every directory-precondition
/// failure takes.
pub fn mk_perm_error(msg: String) -> (r: Error)
    ensures
        r == Error::PermissionFailed(msg),
{
    Error::PermissionFailed(msg)
}

} // verus!
