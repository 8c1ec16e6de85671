//! The reasons for which the store declines an operation.

use vstd::prelude::*;

verus! {

/// Why an operation was declined. A declined operation leaves the store as it
/// was.
#[derive(Clone, Copy, Debug, PartialEq, Eq, Structural)]
pub enum StoreError {
    /// The store holds no record: only `init` is available.
    NotInitialized,
    /// A record exists at the store's location already; `init` leaves it
    /// alone.
    AlreadyInitialized,
    /// No stored version has the given name.
    VersionNotFound,
    /// The baseline is never removed.
    BaselineProtected,
    /// The version is the current one: switch away before removing it.
    CurrentVersion,
    /// There is no current version to commit to.
    NoCurrentVersion,
    /// The confirmation that was asked for was refused.
    Declined,
    /// The operation is declared but does nothing yet.
    NotSupported,
}

} // verus!
