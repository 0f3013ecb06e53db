//! The error taxonomy of the sync engine.
//!
//! Every failure a sync target can surface is one of these variants; the
//! reconciler maps each stage of its state machine to exactly one of them
//! (see [`crate::git::stage_error`]), and the catalog lister uses the two
//! request-level variants.

use vstd::prelude::*;

verus! {

/// Why listing the catalog or reconciling one target failed.
#[derive(Clone, Copy, Debug, PartialEq, Eq, Structural)]
pub enum SyncError {
    /// The token is bad, missing or empty, or the identity request was refused.
    AuthError,
    /// A repository-listing request came back with a non-success status.
    ApiError { status: u16 },
    /// Removing the existing directory on the force path failed.
    FilesystemError,
    /// The fresh clone failed (network, authentication, disk).
    CloneError,
    /// The existing local repository could not be opened.
    RepoOpenError,
    /// The local repository has no remote named "origin".
    RemoteError,
    /// Fetching the default branch from the remote failed.
    FetchError,
    /// A reference lookup or the merge analysis failed.
    RefError,
    /// Moving the working tree (checkout or hard reset) failed.
    CheckoutError,
}

} // verus!
