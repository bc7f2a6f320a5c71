//! Block reconstruction over the version-indexed ledger.
//!
//! The store has no first-class block record.  A block is derived from
//! its boundary transaction: a genesis transaction carries no decodable
//! state, so height, timestamp and hash are fixed; an ordinary block's
//! boundary is a block-metadata transaction whose write-set mutates the
//! on-chain block-metadata resource under the reserved system address,
//! and the block height is read from that single state write.

use vstd::prelude::*;
use crate::error::ApiError;
use crate::ledger::{BlockInfo, BlockMetadataState};
use crate::transaction::{StateKey, Transaction, WriteOp, WriteSet};
use crate::types::{clone_bytes, bytes_equal, core_code_address, zero_hash, AccountAddress, HashValue};

verus! {

/// The module name `block` of the on-chain block-metadata resource, as
/// ASCII bytes.
pub open spec fn block_module_name() -> Seq<u8> {
    seq![98u8, 108u8, 111u8, 99u8, 107u8]
}

/// The struct name `BlockMetadata` of the on-chain block-metadata
/// resource, as ASCII bytes.
pub open spec fn block_resource_name() -> Seq<u8> {
    seq![66u8, 108u8, 111u8, 99u8, 107u8, 77u8, 101u8, 116u8, 97u8, 100u8, 97u8, 116u8, 97u8]
}

/// The ASCII bytes of `block`.
fn block_module_bytes() -> (r: Vec<u8>)
    ensures
        r@ == block_module_name(),
{
    let mut v: Vec<u8> = Vec::new();
    v.push(98u8);
    v.push(108u8);
    v.push(111u8);
    v.push(99u8);
    v.push(107u8);
    proof {
        assert(v@ =~= block_module_name());
    }
    v
}

/// The ASCII bytes of `BlockMetadata`.
fn block_resource_bytes() -> (r: Vec<u8>)
    ensures
        r@ == block_resource_name(),
{
    let mut v: Vec<u8> = Vec::new();
    v.push(66u8);
    v.push(108u8);
    v.push(111u8);
    v.push(99u8);
    v.push(107u8);
    v.push(77u8);
    v.push(101u8);
    v.push(116u8);
    v.push(97u8);
    v.push(100u8);
    v.push(97u8);
    v.push(116u8);
    v.push(97u8);
    proof {
        assert(v@ =~= block_resource_name());
    }
    v
}

/// Whether a state key addresses the block-metadata resource of the
/// reserved system address.
pub open spec fn is_block_metadata_key(key: StateKey) -> bool {
    key matches StateKey::Resource(tag) && tag.address@ == core_code_address() && tag.module@
        == block_module_name() && tag.name@ == block_resource_name()
}

/// Whether a write-set entry writes a fresh value to the block-metadata
/// resource.
pub open spec fn is_block_metadata_value_write(entry: (StateKey, WriteOp)) -> bool {
    is_block_metadata_key(entry.0) && entry.1 is Value
}

/// The value of the first block-metadata state write at or after index
/// `i`, if any.
pub open spec fn first_metadata_value_from(writes: Seq<(StateKey, WriteOp)>, i: int) -> Option<
    Seq<u8>,
>
    decreases writes.len() - i,
    when 0 <= i <= writes.len()
{
    if i >= writes.len() {
        None
    } else if is_block_metadata_value_write(writes[i]) {
        Some(writes[i].1->Value_0@)
    } else {
        first_metadata_value_from(writes, i + 1)
    }
}

/// The value of the first block-metadata state write of a write-set, if
/// any.
pub open spec fn first_metadata_value(writes: Seq<(StateKey, WriteOp)>) -> Option<Seq<u8>> {
    first_metadata_value_from(writes, 0)
}

/// Whether a state key addresses the block-metadata resource.
fn key_is_block_metadata(key: &StateKey) -> (r: bool)
    ensures
        r == is_block_metadata_key(*key),
{
    match key {
        StateKey::Resource(tag) => {
            let core = AccountAddress::core_code();
            tag.address.equals(&core) && bytes_equal(&tag.module, &block_module_bytes())
                && bytes_equal(&tag.name, &block_resource_bytes())
        },
        StateKey::Raw(_) => false,
    }
}

/// Scans a write-set for the state write that updates the block-metadata
/// resource and returns a copy of its new value.
pub fn find_block_metadata_write(write_set: &WriteSet) -> (r: Option<Vec<u8>>)
    ensures
        match r {
            Some(bytes) => first_metadata_value(write_set.writes@) == Some(bytes@),
            None => first_metadata_value(write_set.writes@) is None,
        },
{
    let n = write_set.writes.len();
    let mut i: usize = 0;
    while i < n
        invariant
            i <= n,
            n == write_set.writes@.len(),
            first_metadata_value(write_set.writes@) == first_metadata_value_from(
                write_set.writes@,
                i as int,
            ),
        decreases n - i,
    {
        let entry = &write_set.writes[i];
        if key_is_block_metadata(&entry.0) {
            match &entry.1 {
                WriteOp::Value(value) => {
                    proof {
                        assert(is_block_metadata_value_write(write_set.writes@[i as int]));
                    }
                    return Some(clone_bytes(value));
                },
                WriteOp::Deletion => {
                    proof {
                        assert(!is_block_metadata_value_write(write_set.writes@[i as int]));
                    }
                },
            }
        } else {
            proof {
                assert(!is_block_metadata_value_write(write_set.writes@[i as int]));
            }
        }
        i += 1;
    }
    None
}

/// `end - start + 1`, saturating at the field's upper bound.
pub open spec fn num_transactions_spec(start: u64, end: u64) -> u16 {
    let d: int = if start <= end {
        end - start
    } else {
        0
    };
    if d >= 0xffff {
        0xffffu16
    } else {
        (d + 1) as u16
    }
}

/// The number of transactions of the block `[start, end]`, saturating on
/// overflow of the field.
pub fn saturating_num_transactions(start: u64, end: u64) -> (r: u16)
    ensures
        r == num_transactions_spec(start, end),
{
    let d: u64 = if start <= end {
        end - start
    } else {
        0
    };
    if d >= 0xffff {
        0xffffu16
    } else {
        (d + 1) as u16
    }
}

/// What a reconstructed block looks like, observed as plain values:
/// height, start version, end version, hash bytes, timestamp, and
/// transaction count.
pub open spec fn reconstructed_block_spec(
    start: u64,
    end: u64,
    txn: Transaction,
    decoded: Option<BlockMetadataState>,
) -> Result<(u64, u64, u64, Seq<u8>, u64, u16), ApiError> {
    match txn {
        Transaction::Genesis => Ok(
            (0u64, start, end, zero_hash(), 0u64, num_transactions_spec(start, end)),
        ),
        Transaction::BlockMetadata(m) => {
            if m.timestamp_usecs == 0 {
                Ok((0u64, start, end, m.id@, 0u64, num_transactions_spec(start, end)))
            } else {
                match decoded {
                    Some(state) => Ok(
                        (
                            state.height.0,
                            start,
                            end,
                            m.id@,
                            m.timestamp_usecs,
                            num_transactions_spec(start, end),
                        ),
                    ),
                    None => Err(ApiError::BlockHeightUnavailable),
                }
            }
        },
        _ => Err(ApiError::MalformedLedger),
    }
}

/// A block-information result observed as plain values, for comparison
/// against [`reconstructed_block_spec`].
pub open spec fn block_info_obs(r: Result<BlockInfo, ApiError>) -> Result<
    (u64, u64, u64, Seq<u8>, u64, u16),
    ApiError,
> {
    match r {
        Ok(b) => Ok(
            (
                b.block_height,
                b.start_version,
                b.end_version,
                b.block_hash@,
                b.block_timestamp,
                b.num_transactions,
            ),
        ),
        Err(e) => Err(e),
    }
}

/// Composes the block information of the block `[start, end]` whose
/// boundary transaction is `txn`, given the decoded block-metadata
/// resource of the boundary write-set (`decoded`; only consulted for an
/// ordinary block).
///
/// A genesis boundary always yields height 0, timestamp 0 and the zero
/// hash, whatever `decoded` holds.
pub fn block_info_from_boundary(
    start: u64,
    end: u64,
    txn: Transaction,
    decoded: Option<BlockMetadataState>,
) -> (r: Result<BlockInfo, ApiError>)
    ensures
        block_info_obs(r) == reconstructed_block_spec(start, end, txn, decoded),
        txn is Genesis ==> (r matches Ok(b) && b.block_height == 0 && b.block_timestamp == 0
            && b.block_hash@ == zero_hash()),
{
    let num_transactions = saturating_num_transactions(start, end);
    match txn {
        Transaction::Genesis => Ok(
            BlockInfo {
                block_height: 0,
                start_version: start,
                end_version: end,
                block_hash: HashValue::zero(),
                block_timestamp: 0,
                num_transactions,
            },
        ),
        Transaction::BlockMetadata(m) => {
            if m.timestamp_usecs == 0 {
                Ok(
                    BlockInfo {
                        block_height: 0,
                        start_version: start,
                        end_version: end,
                        block_hash: m.id,
                        block_timestamp: 0,
                        num_transactions,
                    },
                )
            } else {
                match decoded {
                    Some(state) => Ok(
                        BlockInfo {
                            block_height: state.height.0,
                            start_version: start,
                            end_version: end,
                            block_hash: m.id,
                            block_timestamp: m.timestamp_usecs,
                            num_transactions,
                        },
                    ),
                    None => Err(ApiError::BlockHeightUnavailable),
                }
            }
        },
        Transaction::User(_) => Err(ApiError::MalformedLedger),
        Transaction::StateCheckpoint => Err(ApiError::MalformedLedger),
    }
}

/// Law: block reconstruction is a pure function of its inputs.  Any two
/// results composed from the same boundaries, boundary transaction and
/// decoded resource are observationally identical, so repeated reads over
/// an unchanged ledger cannot differ.
pub proof fn lemma_block_reconstruction_idempotent(
    start: u64,
    end: u64,
    txn: Transaction,
    decoded: Option<BlockMetadataState>,
    r1: Result<BlockInfo, ApiError>,
    r2: Result<BlockInfo, ApiError>,
)
    requires
        block_info_obs(r1) == reconstructed_block_spec(start, end, txn, decoded),
        block_info_obs(r2) == reconstructed_block_spec(start, end, txn, decoded),
    ensures
        block_info_obs(r1) == block_info_obs(r2),
{
}

} // verus!

