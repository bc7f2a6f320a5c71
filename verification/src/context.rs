//! Application-scope context: the read-side entry points, each bounded
//! by a caller-chosen ledger version.
//!
//! The context owns no ledger data; it holds the chain identity and a
//! handle to the store interface, re-reads the collaborators on every
//! call, and never caches.  The submission path is independent and lives
//! in [`crate::submission`].

use vstd::prelude::*;
use crate::block::{block_info_from_boundary, find_block_metadata_write, num_transactions_spec};
use crate::error::ApiError;
use crate::ledger::{BlockInfo, BlockMetadataState, LedgerInfo, SignedLedgerHeader, ledger_info_from};
use crate::materialize::{
    account_state_from, filter_committed_events, lemma_committed_events_len, materialize_record,
    materialize_records, materialize_window, validate_output_window,
};
use crate::reader::LedgerReader;
use crate::transaction::{
    AccountState, ContractEvent, EventKey, StateKey, Transaction, TransactionOnChainData,
    TransactionOutput, TransactionWithProof,
};
use crate::types::{AccountAddress, ChainId, HashValue};

verus! {

/// The read-side context over a ledger store.
pub struct Context<R: LedgerReader> {
    chain_id: ChainId,
    /// The versioned ledger store, shared read-only by all callers.
    pub db: R,
}

impl<R: LedgerReader> Context<R> {
    /// The identity of the chain this context serves.
    pub closed spec fn chain_id_spec(&self) -> ChainId {
        self.chain_id
    }

    /// Builds a context over a chain identity and a store handle.
    pub fn new(chain_id: ChainId, db: R) -> (r: Context<R>)
        ensures
            r.chain_id_spec() == chain_id,
    {
        Context { chain_id, db }
    }

    /// The identity of the chain this context serves.
    pub fn chain_id(&self) -> (r: ChainId)
        ensures
            r == self.chain_id_spec(),
    {
        self.chain_id
    }

    /// The latest signed ledger header, straight from the store.
    pub fn get_latest_ledger_info_with_signatures(&self) -> (r: Result<
        SignedLedgerHeader,
        ApiError,
    >)
        ensures
            r matches Err(e) ==> e == ApiError::StorageUnavailable,
    {
        match self.db.get_latest_ledger_info() {
            Ok(header) => Ok(header),
            Err(_) => Err(ApiError::StorageUnavailable),
        }
    }

    /// The current ledger snapshot: chain identity, latest signed header,
    /// and the oldest retained version.  This is the only source of truth
    /// callers should use to pick a `ledger_version` bound.  A store that
    /// has never ingested a transaction yields
    /// [`ApiError::InconsistentLedger`].
    pub fn get_latest_ledger_info(&self) -> (r: Result<LedgerInfo, ApiError>)
        ensures
            r matches Ok(li) ==> li.chain_id == self.chain_id_spec().id && li.wf(),
            r matches Err(e) ==> e == ApiError::StorageUnavailable || e
                == ApiError::InconsistentLedger || e == ApiError::DataIntegrityError,
    {
        let oldest = match self.db.get_first_txn_version() {
            Ok(oldest) => oldest,
            Err(_) => {
                return Err(ApiError::StorageUnavailable);
            },
        };
        match oldest {
            Some(oldest_version) => {
                let header = match self.get_latest_ledger_info_with_signatures() {
                    Ok(header) => header,
                    Err(e) => {
                        return Err(e);
                    },
                };
                ledger_info_from(self.chain_id, &header, oldest_version)
            },
            None => Err(ApiError::InconsistentLedger),
        }
    }

    /// The raw value stored under `state_key` as of `version`.
    pub fn get_state_value(&self, state_key: &StateKey, version: u64) -> (r: Result<
        Option<Vec<u8>>,
        ApiError,
    >)
        ensures
            r matches Err(e) ==> e == ApiError::StorageUnavailable,
    {
        match self.db.get_state_value(state_key, version) {
            Ok(value) => Ok(value),
            Err(_) => Err(ApiError::StorageUnavailable),
        }
    }

    /// All key/value pairs under the resource prefix of `address` as of
    /// `version`.
    pub fn get_state_values(&self, address: &AccountAddress, version: u64) -> (r: Result<
        Vec<(StateKey, Vec<u8>)>,
        ApiError,
    >)
        ensures
            r matches Err(e) ==> e == ApiError::StorageUnavailable,
    {
        match self.db.get_state_values_by_key_prefix(address, version) {
            Ok(values) => Ok(values),
            Err(_) => Err(ApiError::StorageUnavailable),
        }
    }

    /// The full state of `address` as of `version`, or `None` for an
    /// account that holds no state there.  The fetched values are carried
    /// over exactly, through the contracted decision
    /// [`crate::materialize::account_state_from`].
    pub fn get_account_state(&self, address: &AccountAddress, version: u64) -> (r: Result<
        Option<AccountState>,
        ApiError,
    >)
        ensures
            r matches Ok(Some(state)) ==> state.data@.len() > 0,
            r matches Err(e) ==> e == ApiError::StorageUnavailable,
    {
        let values = match self.get_state_values(address, version) {
            Ok(values) => values,
            Err(e) => {
                return Err(e);
            },
        };
        Ok(account_state_from(values))
    }

    /// The timestamp of the block containing `version`.
    pub fn get_block_timestamp(&self, version: u64) -> (r: Result<u64, ApiError>)
        ensures
            r matches Err(e) ==> e == ApiError::StorageUnavailable,
    {
        match self.db.get_block_timestamp(version) {
            Ok(timestamp) => Ok(timestamp),
            Err(_) => Err(ApiError::StorageUnavailable),
        }
    }

    /// The accumulator root hash as of `version`.
    pub fn get_accumulator_root_hash(&self, version: u64) -> (r: Result<HashValue, ApiError>)
        ensures
            r matches Err(e) ==> e == ApiError::StorageUnavailable,
    {
        match self.db.get_accumulator_root_hash(version) {
            Ok(hash) => Ok(hash),
            Err(_) => Err(ApiError::StorageUnavailable),
        }
    }

    /// Retrieves information about the block containing `version`, seen
    /// at `ledger_version`.
    ///
    /// The store is scanned for the block's version boundaries; the
    /// boundary transaction supplies timestamp and hash; for an ordinary
    /// block the height is decoded from the block-metadata state write of
    /// the boundary write-set.  Callers must pass a `ledger_version` no
    /// older than the block being queried.
    pub fn get_block_info(&self, version: u64, ledger_version: u64) -> (r: Result<
        BlockInfo,
        ApiError,
    >)
        ensures
            r matches Ok(b) ==> b.start_version <= version <= b.end_version && b.end_version
                <= ledger_version,
            r matches Ok(b) ==> b.num_transactions == num_transactions_spec(
                b.start_version,
                b.end_version,
            ),
            r matches Err(e) ==> e == ApiError::BlockNotFound || e == ApiError::StorageUnavailable
                || e == ApiError::DataIntegrityError || e == ApiError::BlockHeightUnavailable || e
                == ApiError::MalformedLedger,
    {
        let (start, end) = match self.db.get_block_boundaries(version, ledger_version) {
            Ok(bounds) => bounds,
            Err(_) => {
                return Err(ApiError::BlockNotFound);
            },
        };
        let txn_with_proof = match self.db.get_transaction_by_version(
            start,
            ledger_version,
            false,
        ) {
            Ok(txn) => txn,
            Err(_) => {
                return Err(ApiError::StorageUnavailable);
            },
        };
        let needs_height = match &txn_with_proof.transaction {
            Transaction::BlockMetadata(m) => m.timestamp_usecs != 0,
            _ => false,
        };
        let decoded: Option<BlockMetadataState> = if needs_height {
            let txn = match self.get_transaction_by_version(start, ledger_version) {
                Ok(txn) => txn,
                Err(e) => {
                    return Err(e);
                },
            };
            match find_block_metadata_write(&txn.changes) {
                Some(raw_value) => {
                    match self.db.decode_block_metadata_resource(ledger_version, &raw_value) {
                        Ok(decoded) => decoded,
                        Err(_) => {
                            return Err(ApiError::StorageUnavailable);
                        },
                    }
                },
                None => None,
            }
        } else {
            None
        };
        block_info_from_boundary(start, end, txn_with_proof.transaction, decoded)
    }

    /// A window of at most `limit` materialized records beginning at
    /// `start_version`, with strictly increasing versions.  An
    /// inconsistent window from the store surfaces as
    /// [`ApiError::DataIntegrityError`], never as a partial result.
    pub fn get_transactions(&self, start_version: u64, limit: u16, ledger_version: u64) -> (r:
        Result<Vec<TransactionOnChainData>, ApiError>)
        ensures
            r matches Ok(records) ==> records@.len() <= limit,
            r matches Ok(records) ==> forall|i: int|
                0 <= i < records@.len() ==> (#[trigger] records@[i]).version == start_version + i,
            r matches Err(e) ==> e == ApiError::StorageUnavailable || e
                == ApiError::DataIntegrityError,
    {
        let data = match self.db.get_transaction_outputs(
            start_version,
            limit as u64,
            ledger_version,
        ) {
            Ok(data) => data,
            Err(_) => {
                return Err(ApiError::StorageUnavailable);
            },
        };
        match validate_output_window(
            data.first_transaction_output_version,
            start_version,
            data.transactions_and_outputs.len(),
            data.proof_infos.len(),
        ) {
            Ok(_) => {},
            Err(e) => {
                return Err(e);
            },
        }
        let n = data.transactions_and_outputs.len();
        let mut root_hashes: Vec<HashValue> = Vec::new();
        let mut i: usize = 0;
        while i < n
            invariant
                i <= n,
                root_hashes@.len() == i,
                start_version + n <= ledger_version + 1,
            decreases n - i,
        {
            let version = start_version + (i as u64);
            let root_hash = match self.db.get_accumulator_root_hash(version) {
                Ok(hash) => hash,
                Err(_) => {
                    return Err(ApiError::StorageUnavailable);
                },
            };
            root_hashes.push(root_hash);
            i += 1;
        }
        Ok(
            materialize_window(
                start_version,
                data.transactions_and_outputs,
                data.proof_infos,
                root_hashes,
            ),
        )
    }

    /// At most `limit` materialized records of `address`, beginning at
    /// `start_seq_number`; sequence ordering is delegated wholly to the
    /// store.  Each store item becomes exactly one record, in the store's
    /// order; a failed fetch for any item fails the whole call, never a
    /// silently shorter result.
    pub fn get_account_transactions(
        &self,
        address: &AccountAddress,
        start_seq_number: u64,
        limit: u16,
        ledger_version: u64,
    ) -> (r: Result<Vec<TransactionOnChainData>, ApiError>)
        ensures
            r matches Ok(records) ==> records@.len() <= limit,
            r matches Err(e) ==> e == ApiError::StorageUnavailable || e
                == ApiError::DataIntegrityError,
    {
        let txns = match self.db.get_account_transactions(
            address,
            start_seq_number,
            limit as u64,
            true,
            ledger_version,
        ) {
            Ok(txns) => txns,
            Err(_) => {
                return Err(ApiError::StorageUnavailable);
            },
        };
        let n = txns.len();
        let mut outputs: Vec<TransactionOutput> = Vec::new();
        let mut root_hashes: Vec<HashValue> = Vec::new();
        let mut i: usize = 0;
        while i < n
            invariant
                i <= n,
                n == txns@.len(),
                outputs@.len() == i,
                root_hashes@.len() == i,
            decreases n - i,
        {
            let version = txns[i].version;
            let output = match self.fetch_output_at(version) {
                Ok(output) => output,
                Err(e) => {
                    return Err(e);
                },
            };
            let root_hash = match self.db.get_accumulator_root_hash(version) {
                Ok(hash) => hash,
                Err(_) => {
                    return Err(ApiError::StorageUnavailable);
                },
            };
            outputs.push(output);
            root_hashes.push(root_hash);
            i += 1;
        }
        Ok(materialize_records(txns, outputs, root_hashes))
    }

    /// The materialized record of the committed transaction known under
    /// `hash`, or `None` — not an error — when the store has no record
    /// for that hash.  Only a failed collaborator fetch is an error;
    /// absence never is.
    pub fn get_transaction_by_hash(&self, hash: &HashValue, ledger_version: u64) -> (r: Result<
        Option<TransactionOnChainData>,
        ApiError,
    >)
        ensures
            r matches Ok(Some(record)) ==> record.version <= ledger_version
                && record.info.transaction_hash@ == hash@,
            r matches Err(e) ==> e == ApiError::StorageUnavailable || e
                == ApiError::DataIntegrityError,
    {
        let found = match self.db.get_transaction_by_hash(hash, ledger_version, true) {
            Ok(found) => found,
            Err(_) => {
                return Err(ApiError::StorageUnavailable);
            },
        };
        match found {
            Some(txn) => {
                match self.convert_into_transaction_on_chain_data(txn) {
                    Ok(record) => Ok(Some(record)),
                    Err(e) => Err(e),
                }
            },
            None => Ok(None),
        }
    }

    /// The materialized record of the transaction committed at `version`.
    pub fn get_transaction_by_version(&self, version: u64, ledger_version: u64) -> (r: Result<
        TransactionOnChainData,
        ApiError,
    >)
        ensures
            r matches Ok(record) ==> record.version == version,
            r matches Err(e) ==> e == ApiError::StorageUnavailable || e
                == ApiError::DataIntegrityError,
    {
        let txn = match self.db.get_transaction_by_version(version, ledger_version, true) {
            Ok(txn) => txn,
            Err(_) => {
                return Err(ApiError::StorageUnavailable);
            },
        };
        self.convert_into_transaction_on_chain_data(txn)
    }

    /// The execution output of the transaction committed at `version`: a
    /// one-transaction window fetched at that version.  A store that
    /// returns an empty window for a committed version is internally
    /// inconsistent.
    fn fetch_output_at(&self, version: u64) -> (r: Result<TransactionOutput, ApiError>)
        ensures
            r matches Err(e) ==> e == ApiError::StorageUnavailable || e
                == ApiError::DataIntegrityError,
    {
        let data = match self.db.get_transaction_outputs(version, 1, version) {
            Ok(data) => data,
            Err(_) => {
                return Err(ApiError::StorageUnavailable);
            },
        };
        let mut pairs = data.transactions_and_outputs;
        if pairs.len() == 0 {
            return Err(ApiError::DataIntegrityError);
        }
        let (_, output) = pairs.remove(0);
        Ok(output)
    }

    /// Folds a proved transaction, the output fetched at its version,
    /// and the accumulator root hash as of that version into one record,
    /// through the exact point-lookup fold
    /// [`crate::materialize::materialize_record`].
    fn convert_into_transaction_on_chain_data(&self, txn: TransactionWithProof) -> (r: Result<
        TransactionOnChainData,
        ApiError,
    >)
        ensures
            r matches Ok(record) ==> record.version == txn.version && record.transaction
                == txn.transaction && record.info == txn.info,
            r matches Ok(record) ==> (txn.events matches Some(events) ==> record.events == events),
            r matches Err(e) ==> e == ApiError::StorageUnavailable || e
                == ApiError::DataIntegrityError,
    {
        let output = match self.fetch_output_at(txn.version) {
            Ok(output) => output,
            Err(e) => {
                return Err(e);
            },
        };
        let root_hash = match self.db.get_accumulator_root_hash(txn.version) {
            Ok(hash) => hash,
            Err(_) => {
                return Err(ApiError::StorageUnavailable);
            },
        };
        Ok(materialize_record(txn, output, root_hash))
    }

    /// At most `limit` events of the stream `event_key`, beginning at
    /// sequence number `start`, restricted to transactions committed at
    /// or below `ledger_version`.
    pub fn get_events(&self, event_key: &EventKey, start: u64, limit: u16, ledger_version: u64) -> (r:
        Result<Vec<ContractEvent>, ApiError>)
        ensures
            r matches Ok(events) ==> events@.len() <= limit,
    {
        let events = match self.db.get_events(event_key, start, limit as u64) {
            Ok(events) => events,
            Err(_) => {
                return Err(ApiError::StorageUnavailable);
            },
        };
        proof {
            lemma_committed_events_len(events@, ledger_version);
        }
        Ok(filter_committed_events(events, ledger_version))
    }
}

} // verus!
