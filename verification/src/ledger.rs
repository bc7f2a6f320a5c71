//! The ledger-side data model: the signed ledger header, the snapshot
//! handed to callers, block information, and the on-chain block-metadata
//! resource.

use vstd::prelude::*;
use crate::error::ApiError;
use crate::types::{ChainId, HashValue, U64};

verus! {

/// The latest signed ledger header, as read from the store.
#[derive(Clone, Debug, PartialEq, Eq)]
pub struct SignedLedgerHeader {
    pub epoch: u64,
    /// The highest committed ledger version.
    pub version: u64,
    pub timestamp_usecs: u64,
    pub root_hash: HashValue,
}

/// The canonical "current ledger state" snapshot returned to callers; the
/// only source of truth for picking a `ledger_version` bound.
#[derive(Clone, Copy, Debug, PartialEq, Eq, Structural)]
pub struct LedgerInfo {
    pub chain_id: u8,
    pub epoch: U64,
    pub ledger_version: U64,
    pub oldest_ledger_version: U64,
    pub ledger_timestamp: U64,
}

impl LedgerInfo {
    /// The snapshot never reports an oldest retained version beyond the
    /// current one.
    pub open spec fn wf(&self) -> bool {
        self.oldest_ledger_version.0 <= self.ledger_version.0
    }
}

/// What `LedgerInfo` construction yields for a given header and oldest
/// retained version.
pub open spec fn ledger_info_spec(
    chain_id: ChainId,
    header: SignedLedgerHeader,
    oldest: u64,
) -> Result<LedgerInfo, ApiError> {
    if oldest <= header.version {
        Ok(LedgerInfo {
            chain_id: chain_id.id,
            epoch: U64(header.epoch),
            ledger_version: U64(header.version),
            oldest_ledger_version: U64(oldest),
            ledger_timestamp: U64(header.timestamp_usecs),
        })
    } else {
        Err(ApiError::DataIntegrityError)
    }
}

/// Folds the signed header, the chain identity and the oldest retained
/// version into the caller-facing snapshot.  A store reporting an oldest
/// version beyond the current one is internally inconsistent.
pub fn ledger_info_from(chain_id: ChainId, header: &SignedLedgerHeader, oldest: u64) -> (r: Result<
    LedgerInfo,
    ApiError,
>)
    ensures
        r == ledger_info_spec(chain_id, *header, oldest),
        r matches Ok(li) ==> li.wf(),
{
    if oldest <= header.version {
        Ok(LedgerInfo {
            chain_id: chain_id.id,
            epoch: U64(header.epoch),
            ledger_version: U64(header.version),
            oldest_ledger_version: U64(oldest),
            ledger_timestamp: U64(header.timestamp_usecs),
        })
    } else {
        Err(ApiError::DataIntegrityError)
    }
}

/// Law: snapshot construction is a pure function of its inputs.  Any
/// two snapshots folded from the same chain identity, signed header and
/// oldest retained version are identical, so repeated snapshot reads
/// over an unchanged ledger cannot differ.
pub proof fn lemma_snapshot_idempotent(
    chain_id: ChainId,
    header: SignedLedgerHeader,
    oldest: u64,
    r1: Result<LedgerInfo, ApiError>,
    r2: Result<LedgerInfo, ApiError>,
)
    requires
        r1 == ledger_info_spec(chain_id, header, oldest),
        r2 == ledger_info_spec(chain_id, header, oldest),
    ensures
        r1 == r2,
{
}

/// Information about one block, derived from the version stream.
#[derive(Clone, Debug, PartialEq, Eq)]
pub struct BlockInfo {
    pub block_height: u64,
    pub start_version: u64,
    pub end_version: u64,
    pub block_hash: HashValue,
    pub block_timestamp: u64,
    pub num_transactions: u16,
}

/// The decoded on-chain block-metadata resource.  Its numeric fields are
/// carried as [`U64`] so the boundary representation stays safe for the
/// full 64-bit range.
#[derive(Clone, Copy, Debug, PartialEq, Eq, Structural)]
pub struct BlockMetadataState {
    pub epoch_interval: U64,
    pub height: U64,
}

} // verus!
