//! The recoverable error kinds of shared-map operations.

use vstd::prelude::*;

verus! {

/// A local, synchronous, recoverable error returned at the call site.
/// A failed operation leaves the container exactly as it was.
#[derive(Debug, Clone, Copy, PartialEq, Eq, Structural)]
pub enum MapError {
    /// An operation on an integrated container was invoked without a
    /// transaction.
    MissingTransaction,
    /// An operation ran against a torn-down or otherwise unusable handle.
    InvalidHandle,
    /// An attempt to integrate a container that is already integrated:
    /// a shared container has exactly one location in the document tree.
    AlreadyShared,
    /// An empty key where a non-empty string key is mandated.
    InvalidKey,
}

} // verus!
