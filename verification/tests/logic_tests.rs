//! Tests of the pure building blocks: boundary composition, window
//! validation, write-set scanning, and the value types.

use ledger_context::block::{
    block_info_from_boundary, find_block_metadata_write, saturating_num_transactions,
};
use ledger_context::error::ApiError;
use ledger_context::ledger::{BlockMetadataState, ledger_info_from, SignedLedgerHeader};
use ledger_context::memory::window_count;
use ledger_context::materialize::{
    account_state_from, materialize_record, materialize_window, validate_output_window,
};
use ledger_context::transaction::{
    BlockMetadataTransaction, ContractEvent, EventKey, ResourceTag, SignedTransaction, StateKey,
    Transaction, TransactionInfo, TransactionOutput, TransactionWithProof, WriteOp, WriteSet,
};
use ledger_context::types::{AccountAddress, ChainId, HashValue, U64};

fn hash(byte: u8) -> HashValue {
    HashValue { bytes: vec![byte; 32] }
}

fn metadata_key() -> StateKey {
    StateKey::Resource(ResourceTag {
        address: AccountAddress::core_code(),
        module: b"block".to_vec(),
        name: b"BlockMetadata".to_vec(),
    })
}

#[test]
fn num_transactions_counts_inclusive_range() {
    assert_eq!(saturating_num_transactions(3, 7), 5);
    assert_eq!(saturating_num_transactions(4, 4), 1);
}

#[test]
fn num_transactions_saturates_at_field_bound() {
    assert_eq!(saturating_num_transactions(0, 0xffff), 0xffff);
    assert_eq!(saturating_num_transactions(0, u64::MAX), 0xffff);
    assert_eq!(saturating_num_transactions(7, 3), 1);
}

#[test]
fn window_with_wrong_start_version_is_rejected() {
    assert_eq!(validate_output_window(Some(3), 2, 1, 1), Err(ApiError::DataIntegrityError));
}

#[test]
fn window_without_start_version_is_rejected() {
    assert_eq!(validate_output_window(None, 0, 0, 0), Err(ApiError::DataIntegrityError));
}

#[test]
fn window_with_mismatched_counts_is_rejected() {
    assert_eq!(validate_output_window(Some(2), 2, 3, 2), Err(ApiError::DataIntegrityError));
}

#[test]
fn consistent_window_is_accepted() {
    assert_eq!(validate_output_window(Some(2), 2, 3, 3), Ok(()));
}

#[test]
fn metadata_write_scan_finds_first_value_write() {
    let writes = WriteSet {
        writes: vec![
            (StateKey::Raw(vec![1, 2]), WriteOp::Value(vec![9])),
            (metadata_key(), WriteOp::Deletion),
            (metadata_key(), WriteOp::Value(vec![5, 6])),
            (metadata_key(), WriteOp::Value(vec![7])),
        ],
    };
    assert_eq!(find_block_metadata_write(&writes), Some(vec![5, 6]));
}

#[test]
fn metadata_write_scan_without_value_write_finds_nothing() {
    let writes = WriteSet {
        writes: vec![
            (StateKey::Raw(vec![1, 2]), WriteOp::Value(vec![9])),
            (metadata_key(), WriteOp::Deletion),
        ],
    };
    assert_eq!(find_block_metadata_write(&writes), None);
}

#[test]
fn genesis_boundary_composes_the_fixed_block() {
    let block = block_info_from_boundary(
        0,
        4,
        Transaction::Genesis,
        Some(BlockMetadataState { epoch_interval: U64(1), height: U64(99) }),
    )
    .unwrap();
    assert_eq!(block.block_height, 0);
    assert_eq!(block.block_timestamp, 0);
    assert_eq!(block.block_hash, HashValue::zero());
    assert_eq!(block.num_transactions, 5);
}

#[test]
fn metadata_boundary_without_decoded_height_is_unavailable() {
    let txn = Transaction::BlockMetadata(BlockMetadataTransaction {
        id: hash(7),
        epoch: 1,
        round: 1,
        timestamp_usecs: 22,
        proposer: AccountAddress { bytes: vec![0xAA; 32] },
    });
    assert_eq!(
        block_info_from_boundary(1, 1, txn, None),
        Err(ApiError::BlockHeightUnavailable),
    );
}

#[test]
fn user_transaction_at_boundary_is_malformed_ledger() {
    let txn = Transaction::User(SignedTransaction {
        sender: AccountAddress { bytes: vec![1; 32] },
        sequence_number: 0,
        payload: vec![],
        hash: hash(1),
    });
    assert_eq!(block_info_from_boundary(1, 1, txn, None), Err(ApiError::MalformedLedger));
}

#[test]
fn ledger_info_keeps_header_fields_and_oldest_version() {
    let header = SignedLedgerHeader { epoch: 3, version: 10, timestamp_usecs: 77, root_hash: hash(1) };
    let snapshot = ledger_info_from(ChainId { id: 9 }, &header, 4).unwrap();
    assert_eq!(snapshot.chain_id, 9);
    assert_eq!(snapshot.epoch, U64(3));
    assert_eq!(snapshot.ledger_version, U64(10));
    assert_eq!(snapshot.oldest_ledger_version, U64(4));
    assert_eq!(snapshot.ledger_timestamp, U64(77));
}

#[test]
fn ledger_info_rejects_oldest_version_beyond_current() {
    let header = SignedLedgerHeader { epoch: 3, version: 10, timestamp_usecs: 77, root_hash: hash(1) };
    assert_eq!(
        ledger_info_from(ChainId { id: 9 }, &header, 11),
        Err(ApiError::DataIntegrityError),
    );
}

#[test]
fn zero_hash_is_thirty_two_zero_bytes() {
    assert_eq!(HashValue::zero().bytes, vec![0u8; 32]);
    let core = AccountAddress::core_code();
    assert_eq!(core.bytes[31], 1);
    assert!(core.bytes[..31].iter().all(|b| *b == 0));
}

#[test]
fn materialize_window_folds_each_position() {
    let user = |seq: u64| {
        Transaction::User(SignedTransaction {
            sender: AccountAddress { bytes: vec![1; 32] },
            sequence_number: seq,
            payload: vec![seq as u8],
            hash: hash(seq as u8),
        })
    };
    let event = ContractEvent {
        key: EventKey { creator: AccountAddress { bytes: vec![2; 32] }, creation_number: 0 },
        sequence_number: 0,
        data: vec![42],
    };
    let output = |with_event: bool| TransactionOutput {
        write_set: WriteSet { writes: vec![] },
        events: if with_event { vec![event.clone()] } else { vec![] },
        gas_used: 3,
    };
    let pairs = vec![(user(0), output(true)), (user(1), output(false))];
    let infos = vec![
        TransactionInfo { transaction_hash: hash(10), gas_used: 3 },
        TransactionInfo { transaction_hash: hash(11), gas_used: 3 },
    ];
    let roots = vec![hash(20), hash(21)];
    let records = materialize_window(5, pairs, infos, roots);
    assert_eq!(records.len(), 2);
    assert_eq!(records[0].version, 5);
    assert_eq!(records[1].version, 6);
    assert_eq!(records[0].events, vec![event]);
    assert!(records[1].events.is_empty());
    assert_eq!(records[0].info.transaction_hash, hash(10));
    assert_eq!(records[1].accumulator_root_hash, hash(21));
    assert_eq!(records[0].transaction, user(0));
    assert_eq!(records[1].transaction, user(1));
}

#[test]
fn point_fold_prefers_proved_events_and_keeps_output_changes() {
    let write = (metadata_key(), WriteOp::Value(vec![8, 9]));
    let output = TransactionOutput {
        write_set: WriteSet { writes: vec![write.clone()] },
        events: vec![ContractEvent {
            key: EventKey { creator: AccountAddress { bytes: vec![2; 32] }, creation_number: 0 },
            sequence_number: 0,
            data: vec![1],
        }],
        gas_used: 0,
    };
    let proved_events = vec![ContractEvent {
        key: EventKey { creator: AccountAddress { bytes: vec![3; 32] }, creation_number: 1 },
        sequence_number: 4,
        data: vec![2],
    }];
    let with_events = TransactionWithProof {
        version: 9,
        transaction: Transaction::StateCheckpoint,
        events: Some(proved_events.clone()),
        info: TransactionInfo { transaction_hash: hash(1), gas_used: 0 },
    };
    let record = materialize_record(with_events, output.clone(), hash(30));
    assert_eq!(record.version, 9);
    assert_eq!(record.events, proved_events);
    assert_eq!(record.changes.writes, vec![write.clone()]);
    assert_eq!(record.accumulator_root_hash, hash(30));

    let without_events = TransactionWithProof {
        version: 9,
        transaction: Transaction::StateCheckpoint,
        events: None,
        info: TransactionInfo { transaction_hash: hash(1), gas_used: 0 },
    };
    let fallback = materialize_record(without_events, output.clone(), hash(30));
    assert_eq!(fallback.events, output.events);
}

#[test]
fn account_state_decision_is_exact() {
    assert_eq!(account_state_from(vec![]), None);
    let values = vec![(metadata_key(), vec![1u8, 2u8])];
    let state = account_state_from(values.clone()).unwrap();
    assert_eq!(state.data, values);
}

#[test]
fn window_count_is_min_of_limit_and_available() {
    assert_eq!(window_count(0, 10, 2, 3), 3);
    assert_eq!(window_count(1, 2, 2, 3), 2);
    assert_eq!(window_count(1, 1, 2, 3), 1);
    assert_eq!(window_count(2, 5, 9, 3), 1);
    assert_eq!(window_count(3, 5, 9, 3), 0);
    assert_eq!(window_count(0, 5, 9, 0), 0);
    assert_eq!(window_count(0, 0, 9, 3), 0);
}
