//! End-to-end tests of the read-side context over the in-memory store.

use ledger_context::context::Context;
use ledger_context::error::{ApiError, StorageError};
use ledger_context::ledger::{BlockMetadataState, SignedLedgerHeader};
use ledger_context::memory::{InMemoryLedger, LedgerEntry};
use ledger_context::reader::LedgerReader;
use ledger_context::transaction::{
    BlockMetadataTransaction, ContractEvent, EventKey, EventWithVersion, ResourceTag,
    SignedTransaction, StateKey, Transaction, TransactionInfo, TransactionOutput,
    TransactionOutputListWithProof, TransactionWithProof, WriteOp, WriteSet,
};
use ledger_context::types::{AccountAddress, ChainId, HashValue, U64};

fn hash(byte: u8) -> HashValue {
    HashValue { bytes: vec![byte; 32] }
}

fn address(byte: u8) -> AccountAddress {
    AccountAddress { bytes: vec![byte; 32] }
}

fn info(hash_byte: u8) -> TransactionInfo {
    TransactionInfo { transaction_hash: hash(hash_byte), gas_used: 0 }
}

fn empty_output() -> TransactionOutput {
    TransactionOutput { write_set: WriteSet { writes: vec![] }, events: vec![], gas_used: 0 }
}

fn entry(transaction: Transaction, info_byte: u8, root_byte: u8) -> LedgerEntry {
    LedgerEntry {
        transaction,
        info: info(info_byte),
        output: empty_output(),
        root_hash: hash(root_byte),
    }
}

fn height_resource_bytes(epoch_interval: u64, height: u64) -> Vec<u8> {
    let mut bytes = epoch_interval.to_le_bytes().to_vec();
    bytes.extend_from_slice(&height.to_le_bytes());
    bytes
}

fn block_metadata_write(epoch_interval: u64, height: u64) -> (StateKey, WriteOp) {
    let key = StateKey::Resource(ResourceTag {
        address: AccountAddress::core_code(),
        module: b"block".to_vec(),
        name: b"BlockMetadata".to_vec(),
    });
    (key, WriteOp::Value(height_resource_bytes(epoch_interval, height)))
}

fn metadata_transaction(id_byte: u8, timestamp_usecs: u64) -> Transaction {
    Transaction::BlockMetadata(BlockMetadataTransaction {
        id: hash(id_byte),
        epoch: 1,
        round: 1,
        timestamp_usecs,
        proposer: address(0xAA),
    })
}

fn header(version: u64) -> SignedLedgerHeader {
    SignedLedgerHeader { epoch: 1, version, timestamp_usecs: 1_000_000, root_hash: hash(9) }
}

/// Genesis at version 0 and one block-metadata transaction at version 1
/// whose write-set decodes to height 5.
fn two_block_ledger() -> InMemoryLedger {
    let mut metadata_entry = entry(metadata_transaction(7, 1_000_000), 2, 12);
    metadata_entry.output.write_set.writes.push(block_metadata_write(2, 5));
    InMemoryLedger {
        header: Some(header(1)),
        entries: vec![entry(Transaction::Genesis, 1, 11), metadata_entry],
    }
}

fn context(db: InMemoryLedger) -> Context<InMemoryLedger> {
    Context::new(ChainId { id: 4 }, db)
}

#[test]
fn genesis_block_info_has_zero_height_timestamp_and_hash() {
    let ctx = context(two_block_ledger());
    let block = ctx.get_block_info(0, 1).unwrap();
    assert_eq!(block.block_height, 0);
    assert_eq!(block.block_timestamp, 0);
    assert_eq!(block.block_hash, HashValue::zero());
    assert_eq!(block.start_version, 0);
    assert_eq!(block.end_version, 0);
    assert_eq!(block.num_transactions, 1);
}

#[test]
fn metadata_block_info_decodes_height_from_state_write() {
    let ctx = context(two_block_ledger());
    let block = ctx.get_block_info(1, 1).unwrap();
    assert_eq!(block.block_height, 5);
    assert_eq!(block.start_version, 1);
    assert_eq!(block.end_version, 1);
    assert_eq!(block.num_transactions, 1);
    assert_eq!(block.block_timestamp, 1_000_000);
    assert_eq!(block.block_hash, hash(7));
}

#[test]
fn block_info_bounds_contain_requested_version() {
    let mut ledger = two_block_ledger();
    // two user transactions inside the second block
    ledger.entries.push(entry(
        Transaction::User(SignedTransaction {
            sender: address(3),
            sequence_number: 0,
            payload: vec![],
            hash: hash(33),
        }),
        3,
        13,
    ));
    ledger.entries.push(entry(Transaction::StateCheckpoint, 4, 14));
    let ctx = context(ledger);
    for version in 1..=3u64 {
        let block = ctx.get_block_info(version, 3).unwrap();
        assert!(block.start_version <= version && version <= block.end_version);
        assert_eq!(block.start_version, 1);
        assert_eq!(block.end_version, 3);
        assert_eq!(block.num_transactions, 3);
    }
}

#[test]
fn block_info_without_height_write_is_height_unavailable() {
    let mut ledger = two_block_ledger();
    ledger.entries[1].output.write_set.writes.clear();
    let ctx = context(ledger);
    assert_eq!(ctx.get_block_info(1, 1), Err(ApiError::BlockHeightUnavailable));
}

#[test]
fn block_info_is_idempotent_on_unchanged_ledger() {
    let ctx = context(two_block_ledger());
    let first = ctx.get_block_info(1, 1);
    let second = ctx.get_block_info(1, 1);
    assert_eq!(first, second);
    let third = ctx.get_transactions(0, 10, 1);
    let fourth = ctx.get_transactions(0, 10, 1);
    assert_eq!(third, fourth);
}

#[test]
fn latest_ledger_info_carries_chain_and_versions() {
    let ctx = context(two_block_ledger());
    let snapshot = ctx.get_latest_ledger_info().unwrap();
    assert_eq!(snapshot.chain_id, 4);
    assert_eq!(snapshot.ledger_version, U64(1));
    assert_eq!(snapshot.oldest_ledger_version, U64(0));
    assert_eq!(snapshot.ledger_timestamp, U64(1_000_000));
}

#[test]
fn latest_ledger_info_on_empty_store_is_inconsistent_ledger() {
    let ctx = context(InMemoryLedger::new());
    assert_eq!(ctx.get_latest_ledger_info(), Err(ApiError::InconsistentLedger));
}

#[test]
fn get_transactions_returns_consecutive_versions() {
    let mut ledger = two_block_ledger();
    ledger.entries.push(entry(
        Transaction::User(SignedTransaction {
            sender: address(3),
            sequence_number: 0,
            payload: vec![1, 2],
            hash: hash(33),
        }),
        3,
        13,
    ));
    let ctx = context(ledger);
    let records = ctx.get_transactions(0, 10, 2).unwrap();
    assert_eq!(records.len(), 3);
    for (i, record) in records.iter().enumerate() {
        assert_eq!(record.version, i as u64);
        assert_eq!(record.accumulator_root_hash, hash(11 + i as u8));
    }
    let limited = ctx.get_transactions(1, 2, 2).unwrap();
    assert_eq!(limited.len(), 2);
    assert_eq!(limited[0].version, 1);
    assert_eq!(limited[1].version, 2);
}

#[test]
fn transaction_by_hash_not_found_is_ok_none() {
    let ctx = context(two_block_ledger());
    assert_eq!(ctx.get_transaction_by_hash(&hash(0xEE), 1), Ok(None));
}

#[test]
fn transaction_by_hash_found_matches_version() {
    let ctx = context(two_block_ledger());
    let record = ctx.get_transaction_by_hash(&hash(2), 1).unwrap().unwrap();
    assert_eq!(record.version, 1);
    assert_eq!(record.info.transaction_hash, hash(2));
    let too_early = ctx.get_transaction_by_hash(&hash(2), 0).unwrap();
    assert!(too_early.is_none());
}

#[test]
fn transaction_by_version_materializes_the_record() {
    let ctx = context(two_block_ledger());
    let record = ctx.get_transaction_by_version(1, 1).unwrap();
    assert_eq!(record.version, 1);
    assert_eq!(record.info, info(2));
    assert_eq!(record.accumulator_root_hash, hash(12));
    assert_eq!(record.changes.writes.len(), 1);
}

#[test]
fn account_transactions_filter_by_sender_and_sequence() {
    let mut ledger = two_block_ledger();
    for seq in 0..3u64 {
        ledger.entries.push(entry(
            Transaction::User(SignedTransaction {
                sender: address(3),
                sequence_number: seq,
                payload: vec![],
                hash: hash(40 + seq as u8),
            }),
            40 + seq as u8,
            50 + seq as u8,
        ));
    }
    let ctx = context(ledger);
    let records = ctx.get_account_transactions(&address(3), 1, 10, 4).unwrap();
    assert_eq!(records.len(), 2);
    assert_eq!(records[0].version, 3);
    assert_eq!(records[1].version, 4);
    assert_eq!(records[0].accumulator_root_hash, hash(51));
    assert_eq!(records[1].accumulator_root_hash, hash(52));
    let none = ctx.get_account_transactions(&address(9), 0, 10, 4).unwrap();
    assert!(none.is_empty());
}

#[test]
fn events_are_bounded_by_ledger_version() {
    let mut ledger = two_block_ledger();
    let key = EventKey { creator: address(8), creation_number: 2 };
    for v in 0..2usize {
        ledger.entries[v].output.events.push(ContractEvent {
            key: key.clone(),
            sequence_number: v as u64,
            data: vec![v as u8],
        });
    }
    let ctx = context(ledger);
    let all = ctx.get_events(&key, 0, 10, 1).unwrap();
    assert_eq!(all.len(), 2);
    let bounded = ctx.get_events(&key, 0, 10, 0).unwrap();
    assert_eq!(bounded.len(), 1);
    assert_eq!(bounded[0].data, vec![0]);
}

#[test]
fn block_timestamp_comes_from_the_block_start() {
    let ctx = context(two_block_ledger());
    assert_eq!(ctx.get_block_timestamp(0), Ok(0));
    assert_eq!(ctx.get_block_timestamp(1), Ok(1_000_000));
}

#[test]
fn state_value_replays_writes_up_to_version() {
    let ctx = context(two_block_ledger());
    let key = StateKey::Resource(ResourceTag {
        address: AccountAddress::core_code(),
        module: b"block".to_vec(),
        name: b"BlockMetadata".to_vec(),
    });
    assert_eq!(ctx.get_state_value(&key, 0), Ok(None));
    assert_eq!(ctx.get_state_value(&key, 1), Ok(Some(height_resource_bytes(2, 5))));
}

/// A store that reports a window starting at version 3 whatever was
/// requested.
struct SkewedWindowReader;

impl LedgerReader for SkewedWindowReader {
    fn get_latest_ledger_info(&self) -> Result<SignedLedgerHeader, StorageError> {
        Err(StorageError)
    }

    fn get_first_txn_version(&self) -> Result<Option<u64>, StorageError> {
        Err(StorageError)
    }

    fn get_block_boundaries(
        &self,
        _version: u64,
        _ledger_version: u64,
    ) -> Result<(u64, u64), StorageError> {
        Err(StorageError)
    }

    fn get_transaction_by_version(
        &self,
        _version: u64,
        _ledger_version: u64,
        _fetch_events: bool,
    ) -> Result<TransactionWithProof, StorageError> {
        Err(StorageError)
    }

    fn get_transaction_by_hash(
        &self,
        _hash: &HashValue,
        _ledger_version: u64,
        _fetch_events: bool,
    ) -> Result<Option<TransactionWithProof>, StorageError> {
        Err(StorageError)
    }

    fn get_transaction_outputs(
        &self,
        _start_version: u64,
        _limit: u64,
        _ledger_version: u64,
    ) -> Result<TransactionOutputListWithProof, StorageError> {
        Ok(TransactionOutputListWithProof {
            transactions_and_outputs: vec![],
            first_transaction_output_version: Some(3),
            proof_infos: vec![],
        })
    }

    fn get_account_transactions(
        &self,
        _address: &AccountAddress,
        _start_seq_number: u64,
        _limit: u64,
        _fetch_events: bool,
        _ledger_version: u64,
    ) -> Result<Vec<TransactionWithProof>, StorageError> {
        Err(StorageError)
    }

    fn get_events(
        &self,
        _event_key: &EventKey,
        _start: u64,
        _limit: u64,
    ) -> Result<Vec<EventWithVersion>, StorageError> {
        Err(StorageError)
    }

    fn get_accumulator_root_hash(&self, _version: u64) -> Result<HashValue, StorageError> {
        Err(StorageError)
    }

    fn get_block_timestamp(&self, _version: u64) -> Result<u64, StorageError> {
        Err(StorageError)
    }

    fn get_state_value(
        &self,
        _key: &StateKey,
        _version: u64,
    ) -> Result<Option<Vec<u8>>, StorageError> {
        Err(StorageError)
    }

    fn get_state_values_by_key_prefix(
        &self,
        _address: &AccountAddress,
        _version: u64,
    ) -> Result<Vec<(StateKey, Vec<u8>)>, StorageError> {
        Err(StorageError)
    }

    fn decode_block_metadata_resource(
        &self,
        _ledger_version: u64,
        _raw_value: &Vec<u8>,
    ) -> Result<Option<BlockMetadataState>, StorageError> {
        Err(StorageError)
    }
}

#[test]
fn skewed_output_window_is_a_data_integrity_error() {
    let ctx = Context::new(ChainId { id: 4 }, SkewedWindowReader);
    assert_eq!(ctx.get_transactions(2, 10, 10), Err(ApiError::DataIntegrityError));
}

#[test]
fn account_state_is_none_without_writes_and_some_after() {
    let ctx = context(two_block_ledger());
    let core = AccountAddress::core_code();
    assert_eq!(ctx.get_account_state(&core, 0), Ok(None));
    let state = ctx.get_account_state(&core, 1).unwrap().unwrap();
    assert_eq!(state.data.len(), 1);
    assert_eq!(state.data[0].1, height_resource_bytes(2, 5));
    assert_eq!(ctx.get_account_state(&address(0x77), 1), Ok(None));
}

#[test]
fn window_request_beyond_committed_range_is_a_data_integrity_error() {
    let ctx = context(two_block_ledger());
    assert_eq!(ctx.get_transactions(9, 2, 9), Err(ApiError::DataIntegrityError));
}
