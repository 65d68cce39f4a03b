//! The error taxonomy of the persistence core.

use vstd::prelude::*;

verus! {

/// Why a store operation failed.
///
/// Every error is surfaced verbatim to the immediate caller; the store
/// performs no retries and no local recovery.
#[derive(Clone, Copy, Debug, PartialEq, Eq, Structural)]
pub enum DbError {
    /// A delete or an existence check targeted a row that does not exist:
    /// wrong alias, wrong owner, or an unregistered link.
    NotFound,
    /// A non-ignorable uniqueness violation, e.g. inserting a local image
    /// whose alias is already taken. Insert-or-ignore paths suppress the
    /// duplicate case instead of raising this.
    ConstraintViolation,
    /// Connection acquisition or the transaction mechanism failed. Raised
    /// by the surrounding plumbing that owns real connections, never by
    /// the in-memory store itself.
    ConnectionError,
}

} // verus!
