//! Failure taxonomy of the read/submit context.
//!
//! No failure is recovered or retried inside this layer; every one is
//! mapped to a caller-visible result for the presentation layer to
//! translate.  A mempool validation rejection is a normal outcome, not an
//! error, and lives in `submission`, not here.

use vstd::prelude::*;

verus! {

/// A caller-visible failure of the context.
#[derive(Clone, Copy, Debug, PartialEq, Eq, Structural)]
pub enum ApiError {
    /// A collaborator read failed; recoverable, safe to retry later.
    StorageUnavailable,
    /// No oldest retained version could be determined: the store has never
    /// ingested a transaction.  Surfaced as its own condition rather than a
    /// generic storage failure.
    InconsistentLedger,
    /// A collaborator returned internally inconsistent data; indicates a
    /// bug in the collaborator and is not retried.
    DataIntegrityError,
    /// Block boundaries could not be resolved for the requested version.
    BlockNotFound,
    /// The boundary transaction carries no decodable block-height
    /// resource; unexpected but recoverable.
    BlockHeightUnavailable,
    /// The ledger holds something other than a genesis or block-metadata
    /// transaction at a block boundary.
    MalformedLedger,
    /// The mempool request channel is unreachable or shut down.
    SubmissionChannelError,
}

/// An opaque failure of the versioned ledger store or of the
/// execution-state resolver.
#[derive(Clone, Copy, Debug, PartialEq, Eq, Structural)]
pub struct StorageError;

} // verus!
