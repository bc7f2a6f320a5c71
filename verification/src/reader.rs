//! The interface of the versioned ledger store, together with the
//! execution-state resolver reached through it.
//!
//! The context consumes this interface and never implements persistence
//! itself; alternate storage backends — including the in-memory one in
//! [`crate::memory`] — can be substituted behind it.  Each contract below
//! states only what the store interface promises; everything the context
//! derives from the answers is proved downstream.

use vstd::prelude::*;
use crate::error::StorageError;
use crate::ledger::{BlockMetadataState, SignedLedgerHeader};
use crate::transaction::{
    EventKey, EventWithVersion, StateKey, TransactionOutputListWithProof, TransactionWithProof,
};
use crate::types::{AccountAddress, HashValue};

verus! {

/// Point-in-time reads of state, transactions, events, and accumulator
/// hashes at a given ledger version.
pub trait LedgerReader {
    /// The latest signed ledger header.
    fn get_latest_ledger_info(&self) -> (r: Result<SignedLedgerHeader, StorageError>);

    /// The oldest transaction version still retained, or `None` for a
    /// store that has never ingested a transaction.
    fn get_first_txn_version(&self) -> (r: Result<Option<u64>, StorageError>);

    /// The `[start, end]` range of transaction versions of the block that
    /// contains `version`, bounded by `ledger_version`.
    fn get_block_boundaries(&self, version: u64, ledger_version: u64) -> (r: Result<
        (u64, u64),
        StorageError,
    >)
        ensures
            r matches Ok(b) ==> b.0 <= version && version <= b.1 && b.1 <= ledger_version,
    ;

    /// The transaction committed at `version`, with its proof summary and,
    /// when `fetch_events` is set, its events.
    fn get_transaction_by_version(
        &self,
        version: u64,
        ledger_version: u64,
        fetch_events: bool,
    ) -> (r: Result<TransactionWithProof, StorageError>)
        ensures
            r matches Ok(t) ==> t.version == version,
    ;

    /// The committed transaction known under `hash`, if the store has one
    /// at or below `ledger_version`.  What comes back is the transaction
    /// of that very hash.
    fn get_transaction_by_hash(
        &self,
        hash: &HashValue,
        ledger_version: u64,
        fetch_events: bool,
    ) -> (r: Result<Option<TransactionWithProof>, StorageError>)
        ensures
            r matches Ok(Some(t)) ==> t.version <= ledger_version
                && t.info.transaction_hash@ == hash@,
    ;

    /// A window of at most `limit` transactions with outputs, beginning at
    /// `start_version` and bounded by `ledger_version`.  Whatever window
    /// the store picks, every returned version is at most `ledger_version`.
    fn get_transaction_outputs(
        &self,
        start_version: u64,
        limit: u64,
        ledger_version: u64,
    ) -> (r: Result<TransactionOutputListWithProof, StorageError>)
        ensures
            r matches Ok(d) ==> {
                &&& d.transactions_and_outputs@.len() <= limit
                &&& (d.first_transaction_output_version matches Some(s) ==> s
                    + d.transactions_and_outputs@.len() <= ledger_version + 1)
            },
    ;

    /// At most `limit` committed transactions of `address`, beginning at
    /// `start_seq_number`, in the store's sequence order, bounded by
    /// `ledger_version`.
    fn get_account_transactions(
        &self,
        address: &AccountAddress,
        start_seq_number: u64,
        limit: u64,
        fetch_events: bool,
        ledger_version: u64,
    ) -> (r: Result<Vec<TransactionWithProof>, StorageError>)
        ensures
            r matches Ok(ts) ==> ts@.len() <= limit,
    ;

    /// At most `limit` events of the stream `event_key`, beginning at
    /// sequence number `start`, in ascending order.
    fn get_events(&self, event_key: &EventKey, start: u64, limit: u64) -> (r: Result<
        Vec<EventWithVersion>,
        StorageError,
    >)
        ensures
            r matches Ok(es) ==> es@.len() <= limit,
    ;

    /// The accumulator root hash as of `version`.
    fn get_accumulator_root_hash(&self, version: u64) -> (r: Result<HashValue, StorageError>);

    /// The timestamp of the block that contains `version`.
    fn get_block_timestamp(&self, version: u64) -> (r: Result<u64, StorageError>);

    /// The raw value stored under `key` as of `version`.
    fn get_state_value(&self, key: &StateKey, version: u64) -> (r: Result<
        Option<Vec<u8>>,
        StorageError,
    >);

    /// All key/value pairs under the resource prefix of `address` as of
    /// `version`.
    fn get_state_values_by_key_prefix(&self, address: &AccountAddress, version: u64) -> (r: Result<
        Vec<(StateKey, Vec<u8>)>,
        StorageError,
    >);

    /// Interprets a raw block-metadata state write through the
    /// execution-state resolver at `ledger_version`.  `None` means the
    /// bytes do not decode to the resource.
    fn decode_block_metadata_resource(&self, ledger_version: u64, raw_value: &Vec<u8>) -> (r:
        Result<Option<BlockMetadataState>, StorageError>);
}

} // verus!
