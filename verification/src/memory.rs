//! An in-memory ledger store: a straightforward backend behind
//! [`LedgerReader`], holding one entry per version.  It exists so the
//! context can be exercised — and its collaborator contracts discharged —
//! without a persistent storage engine; tests substitute it for the real
//! store.

use vstd::prelude::*;
use crate::error::StorageError;
use crate::ledger::{BlockMetadataState, SignedLedgerHeader};
use crate::reader::LedgerReader;
use crate::transaction::{
    EventKey, EventWithVersion, StateKey, Transaction, TransactionOutput,
    TransactionOutputListWithProof, TransactionWithProof, WriteOp,
};
use crate::types::{AccountAddress, HashValue, U64};

verus! {

/// Everything the store keeps for one committed version.
#[derive(Clone, Debug)]
pub struct LedgerEntry {
    pub transaction: Transaction,
    pub info: crate::transaction::TransactionInfo,
    pub output: TransactionOutput,
    /// Accumulator root hash as of this version.
    pub root_hash: HashValue,
}

/// A ledger kept wholly in memory; the entry at index `v` is the
/// transaction committed at version `v`.
pub struct InMemoryLedger {
    pub header: Option<SignedLedgerHeader>,
    pub entries: Vec<LedgerEntry>,
}

/// Whether a transaction opens a block: the version stream has a block
/// boundary exactly at genesis and at each block-metadata transaction.
pub open spec fn is_block_start(txn: Transaction) -> bool {
    txn is Genesis || txn is BlockMetadata
}

/// Whether a transaction opens a block.
fn entry_is_block_start(txn: &Transaction) -> (r: bool)
    ensures
        r == is_block_start(*txn),
{
    match txn {
        Transaction::Genesis => true,
        Transaction::BlockMetadata(_) => true,
        Transaction::User(_) => false,
        Transaction::StateCheckpoint => false,
    }
}

/// Structural comparison of two state keys.
fn state_keys_equal(a: &StateKey, b: &StateKey) -> bool {
    match (a, b) {
        (StateKey::Resource(ta), StateKey::Resource(tb)) => {
            ta.address.equals(&tb.address) && crate::types::bytes_equal(&ta.module, &tb.module)
                && crate::types::bytes_equal(&ta.name, &tb.name)
        },
        (StateKey::Raw(ra), StateKey::Raw(rb)) => crate::types::bytes_equal(ra, rb),
        _ => false,
    }
}

/// The value of a byte string read as a little-endian integer.
pub open spec fn le_value(bytes: Seq<u8>) -> nat
    decreases bytes.len(),
{
    if bytes.len() == 0 {
        0
    } else {
        bytes[0] as nat + 256 * le_value(bytes.drop_first())
    }
}

/// 256 raised to the power `n`.
pub open spec fn pow256(n: nat) -> nat
    decreases n,
{
    if n == 0 {
        1
    } else {
        256 * pow256((n - 1) as nat)
    }
}

proof fn lemma_pow256_pos(n: nat)
    ensures
        pow256(n) >= 1,
    decreases n,
{
    if n > 0 {
        lemma_pow256_pos((n - 1) as nat);
    }
}

proof fn lemma_pow256_mono(a: nat, b: nat)
    requires
        a <= b,
    ensures
        pow256(a) <= pow256(b),
    decreases b,
{
    if a < b {
        lemma_pow256_mono(a, (b - 1) as nat);
        lemma_pow256_pos((b - 1) as nat);
    }
}

/// A string of `n` bytes reads to a value below `256^n`.
proof fn lemma_le_value_bound(bytes: Seq<u8>)
    ensures
        le_value(bytes) < pow256(bytes.len() as nat),
    decreases bytes.len(),
{
    if bytes.len() > 0 {
        let rest = bytes.drop_first();
        lemma_le_value_bound(rest);
        lemma_pow256_pos(rest.len() as nat);
        let tail_value = le_value(rest);
        let p = pow256(rest.len() as nat);
        assert(256 * tail_value <= 256 * (p - 1)) by (nonlinear_arith)
            requires
                tail_value <= p - 1,
        ;
    }
}

/// Reads the little-endian 64-bit value stored in `bytes` at `offset`.
fn u64_from_le_bytes(bytes: &Vec<u8>, offset: usize) -> (r: u64)
    requires
        offset + 8 <= bytes@.len(),
    ensures
        r == le_value(bytes@.subrange(offset as int, offset as int + 8)),
{
    let len = bytes.len();
    let mut value: u64 = 0;
    let mut i: usize = 8;
    proof {
        assert(bytes@.subrange(offset + 8int, offset + 8int) =~= Seq::<u8>::empty());
    }
    while i > 0
        invariant
            i <= 8,
            len == bytes@.len(),
            offset + 8 <= len,
            value == le_value(bytes@.subrange(offset + i as int, offset as int + 8)),
        decreases i,
    {
        i -= 1;
        let byte = bytes[offset + i];
        proof {
            let tail = bytes@.subrange(offset + i as int + 1, offset as int + 8);
            let whole = bytes@.subrange(offset + i as int, offset as int + 8);
            lemma_le_value_bound(tail);
            lemma_pow256_mono(tail.len() as nat, 7);
            assert(pow256(0) == 1);
            assert(pow256(1) == 256);
            assert(pow256(2) == 65536);
            assert(pow256(3) == 16777216);
            assert(pow256(4) == 4294967296);
            assert(pow256(5) == 1099511627776);
            assert(pow256(6) == 281474976710656);
            assert(pow256(7) == 72057594037927936);
            assert(whole[0] == bytes@[offset + i as int]);
            assert(whole.drop_first() =~= tail);
        }
        value = value * 256 + (byte as u64);
    }
    value
}

/// How many outputs a window request yields on a store of `len`
/// committed versions: none when the request starts outside the
/// committed range bounded by `ledger_version`, else exactly
/// `min(limit, available)`, where `available` counts the versions from
/// `start_version` through the lesser of `ledger_version` and the last
/// committed version.
pub open spec fn window_count_spec(
    start_version: u64,
    limit: u64,
    ledger_version: u64,
    len: u64,
) -> int {
    if len == 0 || start_version > ledger_version || start_version >= len || limit == 0 {
        0
    } else {
        let top: int = if ledger_version < len - 1 {
            ledger_version as int
        } else {
            len - 1
        };
        let available: int = top - start_version + 1;
        if limit < available {
            limit as int
        } else {
            available
        }
    }
}

/// The size of the output window for a range request: exactly
/// `min(limit, available)` whenever the request starts inside the
/// committed range.
pub fn window_count(start_version: u64, limit: u64, ledger_version: u64, len: u64) -> (r: u64)
    ensures
        r == window_count_spec(start_version, limit, ledger_version, len),
        r <= limit,
        r > 0 ==> start_version + r <= ledger_version + 1,
        r > 0 ==> start_version + r <= len,
{
    if len == 0 || start_version > ledger_version || start_version >= len || limit == 0 {
        return 0;
    }
    let top: u64 = if ledger_version < len - 1 {
        ledger_version
    } else {
        len - 1
    };
    let available: u64 = top - start_version + 1;
    if limit < available {
        limit
    } else {
        available
    }
}

impl InMemoryLedger {
    /// A store that has never ingested a transaction.
    pub fn new() -> (r: InMemoryLedger)
        ensures
            r.entries@.len() == 0,
    {
        InMemoryLedger { header: None, entries: Vec::new() }
    }

    /// The start version of the block containing `version`: the nearest
    /// block-start transaction at or below it.
    fn find_block_start(&self, version: u64) -> (r: Result<u64, StorageError>)
        requires
            version < self.entries@.len(),
        ensures
            r matches Ok(s) ==> s <= version && is_block_start(
                self.entries@[s as int].transaction,
            ),
    {
        let len = self.entries.len();
        let mut s: u64 = version;
        while s > 0 && !entry_is_block_start(&self.entries[s as usize].transaction)
            invariant
                s <= version,
                len == self.entries@.len(),
                version < len,
            decreases s,
        {
            s = s - 1;
        }
        if entry_is_block_start(&self.entries[s as usize].transaction) {
            Ok(s)
        } else {
            Err(StorageError)
        }
    }
}

impl LedgerReader for InMemoryLedger {
    fn get_latest_ledger_info(&self) -> (r: Result<SignedLedgerHeader, StorageError>) {
        match &self.header {
            Some(header) => Ok(header.clone()),
            None => Err(StorageError),
        }
    }

    fn get_first_txn_version(&self) -> (r: Result<Option<u64>, StorageError>) {
        if self.entries.len() == 0 {
            Ok(None)
        } else {
            Ok(Some(0))
        }
    }

    fn get_block_boundaries(&self, version: u64, ledger_version: u64) -> (r: Result<
        (u64, u64),
        StorageError,
    >) {
        let len = self.entries.len();
        if version >= len as u64 || version > ledger_version {
            return Err(StorageError);
        }
        let top: u64 = if ledger_version < (len as u64) - 1 {
            ledger_version
        } else {
            (len as u64) - 1
        };
        let start = match self.find_block_start(version) {
            Ok(start) => start,
            Err(e) => {
                return Err(e);
            },
        };
        let mut end: u64 = version;
        while end < top && !entry_is_block_start(&self.entries[(end + 1) as usize].transaction)
            invariant
                version <= end <= top,
                top < self.entries@.len(),
            decreases top - end,
        {
            end = end + 1;
        }
        Ok((start, end))
    }

    fn get_transaction_by_version(
        &self,
        version: u64,
        ledger_version: u64,
        fetch_events: bool,
    ) -> (r: Result<TransactionWithProof, StorageError>) {
        let len = self.entries.len();
        if version >= len as u64 || version > ledger_version {
            return Err(StorageError);
        }
        let entry = &self.entries[version as usize];
        let events = if fetch_events {
            Some(entry.output.events.clone())
        } else {
            None
        };
        Ok(
            TransactionWithProof {
                version,
                transaction: entry.transaction.clone(),
                events,
                info: entry.info.clone(),
            },
        )
    }

    fn get_transaction_by_hash(
        &self,
        hash: &HashValue,
        ledger_version: u64,
        fetch_events: bool,
    ) -> (r: Result<Option<TransactionWithProof>, StorageError>) {
        let len = self.entries.len();
        let mut i: usize = 0;
        while i < len && (i as u64) <= ledger_version
            invariant
                i <= len,
                len == self.entries@.len(),
            decreases len - i,
        {
            let entry = &self.entries[i];
            if entry.info.transaction_hash.equals(hash) {
                let events = if fetch_events {
                    Some(entry.output.events.clone())
                } else {
                    None
                };
                let info = crate::transaction::TransactionInfo {
                    transaction_hash: HashValue {
                        bytes: crate::types::clone_bytes(&entry.info.transaction_hash.bytes),
                    },
                    gas_used: entry.info.gas_used,
                };
                return Ok(
                    Some(
                        TransactionWithProof {
                            version: i as u64,
                            transaction: entry.transaction.clone(),
                            events,
                            info,
                        },
                    ),
                );
            }
            i += 1;
        }
        Ok(None)
    }

    fn get_transaction_outputs(
        &self,
        start_version: u64,
        limit: u64,
        ledger_version: u64,
    ) -> (r: Result<TransactionOutputListWithProof, StorageError>) {
        let len = self.entries.len();
        let count = window_count(start_version, limit, ledger_version, len as u64);
        if count == 0 {
            return Ok(
                TransactionOutputListWithProof {
                    transactions_and_outputs: Vec::new(),
                    first_transaction_output_version: None,
                    proof_infos: Vec::new(),
                },
            );
        }
        let mut pairs: Vec<(Transaction, TransactionOutput)> = Vec::new();
        let mut infos: Vec<crate::transaction::TransactionInfo> = Vec::new();
        let mut k: u64 = 0;
        while k < count
            invariant
                k <= count,
                count <= limit,
                start_version + count <= ledger_version + 1,
                start_version + count <= len,
                len == self.entries@.len(),
                pairs@.len() == k,
                infos@.len() == k,
            decreases count - k,
        {
            let entry = &self.entries[(start_version + k) as usize];
            pairs.push((entry.transaction.clone(), entry.output.clone()));
            infos.push(entry.info.clone());
            k += 1;
        }
        Ok(
            TransactionOutputListWithProof {
                transactions_and_outputs: pairs,
                first_transaction_output_version: Some(start_version),
                proof_infos: infos,
            },
        )
    }

    fn get_account_transactions(
        &self,
        address: &AccountAddress,
        start_seq_number: u64,
        limit: u64,
        fetch_events: bool,
        ledger_version: u64,
    ) -> (r: Result<Vec<TransactionWithProof>, StorageError>) {
        let len = self.entries.len();
        let mut out: Vec<TransactionWithProof> = Vec::new();
        let mut i: usize = 0;
        while i < len && (out.len() as u64) < limit
            invariant
                i <= len,
                len == self.entries@.len(),
                out@.len() <= limit,
            decreases len - i,
        {
            if (i as u64) <= ledger_version {
                let entry = &self.entries[i];
                let matching = match &entry.transaction {
                    Transaction::User(txn) => txn.sender.equals(address) && txn.sequence_number
                        >= start_seq_number,
                    _ => false,
                };
                if matching {
                    let events = if fetch_events {
                        Some(entry.output.events.clone())
                    } else {
                        None
                    };
                    out.push(
                        TransactionWithProof {
                            version: i as u64,
                            transaction: entry.transaction.clone(),
                            events,
                            info: entry.info.clone(),
                        },
                    );
                }
            }
            i += 1;
        }
        Ok(out)
    }

    fn get_events(&self, event_key: &EventKey, start: u64, limit: u64) -> (r: Result<
        Vec<EventWithVersion>,
        StorageError,
    >) {
        let len = self.entries.len();
        let mut out: Vec<EventWithVersion> = Vec::new();
        let mut i: usize = 0;
        while i < len && (out.len() as u64) < limit
            invariant
                i <= len,
                len == self.entries@.len(),
                out@.len() <= limit,
            decreases len - i,
        {
            let entry = &self.entries[i];
            let n_events = entry.output.events.len();
            let mut j: usize = 0;
            while j < n_events && (out.len() as u64) < limit
                invariant
                    j <= n_events,
                    i < self.entries@.len(),
                    n_events == self.entries@[i as int].output.events@.len(),
                    out@.len() <= limit,
                decreases n_events - j,
            {
                let event = &self.entries[i].output.events[j];
                if event.key.creator.equals(&event_key.creator) && event.key.creation_number
                    == event_key.creation_number && event.sequence_number >= start {
                    out.push(EventWithVersion { transaction_version: i as u64, event: event.clone() });
                }
                j += 1;
            }
            i += 1;
        }
        Ok(out)
    }

    fn get_accumulator_root_hash(&self, version: u64) -> (r: Result<HashValue, StorageError>) {
        let len = self.entries.len();
        if version >= len as u64 {
            return Err(StorageError);
        }
        Ok(self.entries[version as usize].root_hash.clone())
    }

    fn get_block_timestamp(&self, version: u64) -> (r: Result<u64, StorageError>) {
        let len = self.entries.len();
        if version >= len as u64 {
            return Err(StorageError);
        }
        let start = match self.find_block_start(version) {
            Ok(start) => start,
            Err(e) => {
                return Err(e);
            },
        };
        match &self.entries[start as usize].transaction {
            Transaction::Genesis => Ok(0),
            Transaction::BlockMetadata(m) => Ok(m.timestamp_usecs),
            _ => Err(StorageError),
        }
    }

    fn get_state_value(&self, key: &StateKey, version: u64) -> (r: Result<
        Option<Vec<u8>>,
        StorageError,
    >) {
        let len = self.entries.len();
        let mut found: Option<Vec<u8>> = None;
        let mut i: usize = 0;
        while i < len && (i as u64) <= version
            invariant
                i <= len,
                len == self.entries@.len(),
            decreases len - i,
        {
            let n_writes = self.entries[i].output.write_set.writes.len();
            let mut j: usize = 0;
            while j < n_writes
                invariant
                    j <= n_writes,
                    i < self.entries@.len(),
                    n_writes == self.entries@[i as int].output.write_set.writes@.len(),
                decreases n_writes - j,
            {
                let write = &self.entries[i].output.write_set.writes[j];
                if state_keys_equal(&write.0, key) {
                    found = match &write.1 {
                        WriteOp::Value(value) => Some(crate::types::clone_bytes(value)),
                        WriteOp::Deletion => None,
                    };
                }
                j += 1;
            }
            i += 1;
        }
        Ok(found)
    }

    fn get_state_values_by_key_prefix(&self, address: &AccountAddress, version: u64) -> (r: Result<
        Vec<(StateKey, Vec<u8>)>,
        StorageError,
    >) {
        let len = self.entries.len();
        let mut out: Vec<(StateKey, Vec<u8>)> = Vec::new();
        let mut i: usize = 0;
        while i < len && (i as u64) <= version
            invariant
                i <= len,
                len == self.entries@.len(),
            decreases len - i,
        {
            let n_writes = self.entries[i].output.write_set.writes.len();
            let mut j: usize = 0;
            while j < n_writes
                invariant
                    j <= n_writes,
                    i < self.entries@.len(),
                    n_writes == self.entries@[i as int].output.write_set.writes@.len(),
                decreases n_writes - j,
            {
                let write = &self.entries[i].output.write_set.writes[j];
                let owned_by_address = match &write.0 {
                    StateKey::Resource(tag) => tag.address.equals(address),
                    StateKey::Raw(_) => false,
                };
                if owned_by_address {
                    let existing = find_key_index(&out, &write.0);
                    match existing {
                        Some(at) => {
                            let _ = out.remove(at);
                        },
                        None => {},
                    }
                    match &write.1 {
                        WriteOp::Value(value) => {
                            out.push((write.0.clone(), crate::types::clone_bytes(value)));
                        },
                        WriteOp::Deletion => {},
                    }
                }
                j += 1;
            }
            i += 1;
        }
        Ok(out)
    }

    fn decode_block_metadata_resource(&self, ledger_version: u64, raw_value: &Vec<u8>) -> (r:
        Result<Option<BlockMetadataState>, StorageError>) {
        if raw_value.len() != 16 {
            return Ok(None);
        }
        let epoch_interval = u64_from_le_bytes(raw_value, 0);
        let height = u64_from_le_bytes(raw_value, 8);
        Ok(Some(BlockMetadataState { epoch_interval: U64(epoch_interval), height: U64(height) }))
    }
}

/// The index of `key` in `pairs`, if present.
fn find_key_index(pairs: &Vec<(StateKey, Vec<u8>)>, key: &StateKey) -> (r: Option<usize>)
    ensures
        r matches Some(i) ==> i < pairs@.len(),
{
    let len = pairs.len();
    let mut i: usize = 0;
    while i < len
        invariant
            i <= len,
            len == pairs@.len(),
        decreases len - i,
    {
        if state_keys_equal(&pairs[i].0, key) {
            return Some(i);
        }
        i += 1;
    }
    None
}

} // verus!
