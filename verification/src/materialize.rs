//! Pure checks and folds used while materializing transaction records
//! and event ranges from the store's partial answers.

use vstd::prelude::*;
use crate::error::ApiError;
use crate::transaction::{
    AccountState, ContractEvent, EventWithVersion, StateKey, Transaction, TransactionInfo,
    TransactionOnChainData, TransactionOutput, TransactionWithProof,
};
use crate::types::HashValue;

verus! {

/// Whether the store's answer to a range request beginning at
/// `start_version` is an internally consistent window: it must report the
/// requested start version and one proof summary per returned
/// transaction.
pub open spec fn output_window_consistent(
    first_version: Option<u64>,
    start_version: u64,
    n_outputs: int,
    n_infos: int,
) -> bool {
    first_version == Some(start_version) && n_outputs == n_infos
}

/// Validates the shape of a transaction-output window returned by the
/// store.  An inconsistent window — wrong start version, no start version
/// at all, or mismatched proof and output counts — is a collaborator bug
/// and surfaces as [`ApiError::DataIntegrityError`], never as a partial
/// silent result.
pub fn validate_output_window(
    first_version: Option<u64>,
    start_version: u64,
    n_outputs: usize,
    n_infos: usize,
) -> (r: Result<(), ApiError>)
    ensures
        r is Ok <==> output_window_consistent(
            first_version,
            start_version,
            n_outputs as int,
            n_infos as int,
        ),
        r is Err ==> (r matches Err(e) && e == ApiError::DataIntegrityError),
{
    match first_version {
        None => Err(ApiError::DataIntegrityError),
        Some(v) => {
            if v != start_version {
                Err(ApiError::DataIntegrityError)
            } else if n_outputs != n_infos {
                Err(ApiError::DataIntegrityError)
            } else {
                Ok(())
            }
        },
    }
}

/// The record materialized from one transaction, its output, its proof
/// summary, and the accumulator root hash as of its version.
pub open spec fn record_spec(
    version: u64,
    pair: (Transaction, TransactionOutput),
    info: TransactionInfo,
    root_hash: HashValue,
) -> TransactionOnChainData {
    TransactionOnChainData {
        version,
        transaction: pair.0,
        info,
        events: pair.1.events,
        accumulator_root_hash: root_hash,
        changes: pair.1.write_set,
    }
}

/// Folds a validated output window into materialized records: the record
/// at position `i` carries version `start_version + i` and is assembled
/// from the `i`th transaction, output, proof summary and root hash —
/// exactly one record per returned transaction, never a partial result.
pub fn materialize_window(
    start_version: u64,
    pairs: Vec<(Transaction, TransactionOutput)>,
    infos: Vec<TransactionInfo>,
    root_hashes: Vec<HashValue>,
) -> (r: Vec<TransactionOnChainData>)
    requires
        pairs@.len() == infos@.len(),
        pairs@.len() == root_hashes@.len(),
        start_version + pairs@.len() <= u64::MAX + 1,
    ensures
        r@.len() == pairs@.len(),
        forall|i: int|
            0 <= i < r@.len() ==> r@[i] == record_spec(
                (start_version + i) as u64,
                pairs@[i],
                infos@[i],
                root_hashes@[i],
            ),
{
    let ghost all_pairs = pairs@;
    let ghost all_infos = infos@;
    let ghost all_roots = root_hashes@;
    let n = pairs.len();
    let mut pairs = pairs;
    let mut infos = infos;
    let mut root_hashes = root_hashes;
    let mut records: Vec<TransactionOnChainData> = Vec::new();
    let mut i: usize = 0;
    while i < n
        invariant
            i <= n,
            n == all_pairs.len(),
            all_infos.len() == n,
            all_roots.len() == n,
            pairs@ == all_pairs.skip(i as int),
            infos@ == all_infos.skip(i as int),
            root_hashes@ == all_roots.skip(i as int),
            records@.len() == i,
            start_version + n <= u64::MAX + 1,
            forall|j: int|
                0 <= j < i ==> records@[j] == record_spec(
                    (start_version + j) as u64,
                    all_pairs[j],
                    all_infos[j],
                    all_roots[j],
                ),
        decreases n - i,
    {
        proof {
            assert(all_pairs.skip(i as int)[0] == all_pairs[i as int]);
            assert(all_infos.skip(i as int)[0] == all_infos[i as int]);
            assert(all_roots.skip(i as int)[0] == all_roots[i as int]);
            assert(all_pairs.skip(i as int).remove(0) =~= all_pairs.skip(i as int + 1));
            assert(all_infos.skip(i as int).remove(0) =~= all_infos.skip(i as int + 1));
            assert(all_roots.skip(i as int).remove(0) =~= all_roots.skip(i as int + 1));
        }
        let version = start_version + (i as u64);
        let (txn, output) = pairs.remove(0);
        let info = infos.remove(0);
        let root_hash = root_hashes.remove(0);
        records.push(
            TransactionOnChainData {
                version,
                transaction: txn,
                info,
                events: output.events,
                accumulator_root_hash: root_hash,
                changes: output.write_set,
            },
        );
        i += 1;
    }
    records
}

/// The record materialized from a point lookup: a proved transaction,
/// the output fetched at its version, and the accumulator root hash as
/// of that version.  Events come from the proved transaction when it
/// carries them, else from the output.
pub open spec fn point_record_spec(
    txn: TransactionWithProof,
    output: TransactionOutput,
    root_hash: HashValue,
) -> TransactionOnChainData {
    TransactionOnChainData {
        version: txn.version,
        transaction: txn.transaction,
        info: txn.info,
        events: match txn.events {
            Some(events) => events,
            None => output.events,
        },
        accumulator_root_hash: root_hash,
        changes: output.write_set,
    }
}

/// Folds one proved transaction, the output fetched at its version, and
/// the accumulator root hash as of that version into the materialized
/// record.
pub fn materialize_record(
    txn: TransactionWithProof,
    output: TransactionOutput,
    root_hash: HashValue,
) -> (r: TransactionOnChainData)
    ensures
        r == point_record_spec(txn, output, root_hash),
{
    let events = match txn.events {
        Some(events) => events,
        None => output.events,
    };
    TransactionOnChainData {
        version: txn.version,
        transaction: txn.transaction,
        info: txn.info,
        events,
        accumulator_root_hash: root_hash,
        changes: output.write_set,
    }
}

/// Folds a list of proved transactions with their outputs and root
/// hashes, position by position: one record per input, in the input's
/// order, each the exact point-lookup fold of its own triple.
pub fn materialize_records(
    txns: Vec<TransactionWithProof>,
    outputs: Vec<TransactionOutput>,
    root_hashes: Vec<HashValue>,
) -> (r: Vec<TransactionOnChainData>)
    requires
        txns@.len() == outputs@.len(),
        txns@.len() == root_hashes@.len(),
    ensures
        r@.len() == txns@.len(),
        forall|i: int|
            0 <= i < r@.len() ==> r@[i] == point_record_spec(
                txns@[i],
                outputs@[i],
                root_hashes@[i],
            ),
{
    let ghost all_txns = txns@;
    let ghost all_outputs = outputs@;
    let ghost all_roots = root_hashes@;
    let n = txns.len();
    let mut txns = txns;
    let mut outputs = outputs;
    let mut root_hashes = root_hashes;
    let mut records: Vec<TransactionOnChainData> = Vec::new();
    let mut i: usize = 0;
    while i < n
        invariant
            i <= n,
            n == all_txns.len(),
            all_outputs.len() == n,
            all_roots.len() == n,
            txns@ == all_txns.skip(i as int),
            outputs@ == all_outputs.skip(i as int),
            root_hashes@ == all_roots.skip(i as int),
            records@.len() == i,
            forall|j: int|
                0 <= j < i ==> records@[j] == point_record_spec(
                    all_txns[j],
                    all_outputs[j],
                    all_roots[j],
                ),
        decreases n - i,
    {
        proof {
            assert(all_txns.skip(i as int)[0] == all_txns[i as int]);
            assert(all_outputs.skip(i as int)[0] == all_outputs[i as int]);
            assert(all_roots.skip(i as int)[0] == all_roots[i as int]);
            assert(all_txns.skip(i as int).remove(0) =~= all_txns.skip(i as int + 1));
            assert(all_outputs.skip(i as int).remove(0) =~= all_outputs.skip(i as int + 1));
            assert(all_roots.skip(i as int).remove(0) =~= all_roots.skip(i as int + 1));
        }
        let txn = txns.remove(0);
        let output = outputs.remove(0);
        let root_hash = root_hashes.remove(0);
        records.push(materialize_record(txn, output, root_hash));
        i += 1;
    }
    records
}

/// Law: point-lookup materialization is a pure function of its inputs.
/// Any two records folded from the same proved transaction, output and
/// root hash are identical, so repeated point reads over an unchanged
/// ledger cannot differ.
pub proof fn lemma_point_materialization_idempotent(
    txn: TransactionWithProof,
    output: TransactionOutput,
    root_hash: HashValue,
    r1: TransactionOnChainData,
    r2: TransactionOnChainData,
)
    requires
        r1 == point_record_spec(txn, output, root_hash),
        r2 == point_record_spec(txn, output, root_hash),
    ensures
        r1 == r2,
{
}

/// Law: window materialization is a pure function of its inputs.  Any
/// two windows folded from the same start version, transaction/output
/// pairs, proof summaries and root hashes are identical, so repeated
/// range reads over an unchanged ledger cannot differ.
pub proof fn lemma_window_materialization_idempotent(
    start_version: u64,
    pairs: Seq<(Transaction, TransactionOutput)>,
    infos: Seq<TransactionInfo>,
    root_hashes: Seq<HashValue>,
    r1: Seq<TransactionOnChainData>,
    r2: Seq<TransactionOnChainData>,
)
    requires
        r1.len() == pairs.len(),
        r2.len() == pairs.len(),
        forall|i: int|
            0 <= i < pairs.len() ==> r1[i] == record_spec(
                (start_version + i) as u64,
                pairs[i],
                infos[i],
                root_hashes[i],
            ),
        forall|i: int|
            0 <= i < pairs.len() ==> r2[i] == record_spec(
                (start_version + i) as u64,
                pairs[i],
                infos[i],
                root_hashes[i],
            ),
    ensures
        r1 == r2,
{
    assert(r1 =~= r2);
}

/// Law: event filtering is a pure function of its inputs.  Any two
/// results equal to the filtered sequence of the same store answer are
/// identical, so repeated event reads over an unchanged ledger cannot
/// differ.
pub proof fn lemma_event_filter_idempotent(
    events: Seq<EventWithVersion>,
    ledger_version: u64,
    r1: Seq<ContractEvent>,
    r2: Seq<ContractEvent>,
)
    requires
        r1 == committed_events(events, ledger_version),
        r2 == committed_events(events, ledger_version),
    ensures
        r1 == r2,
{
}

/// Decides whether fetched account values form an account state: an
/// account with no values has no state (`None`), and any values are
/// carried over exactly, never trimmed.
pub fn account_state_from(values: Vec<(StateKey, Vec<u8>)>) -> (r: Option<AccountState>)
    ensures
        r is Some <==> values@.len() > 0,
        r matches Some(state) ==> state.data == values,
{
    if values.len() == 0 {
        None
    } else {
        Some(AccountState { data: values })
    }
}

/// The events of `events` whose emitting transaction is committed at or
/// below `ledger_version`, stripped of their version, in order.
pub open spec fn committed_events(events: Seq<EventWithVersion>, ledger_version: u64) -> Seq<
    ContractEvent,
>
    decreases events.len(),
{
    if events.len() == 0 {
        Seq::empty()
    } else {
        let rest = committed_events(events.drop_last(), ledger_version);
        if events.last().transaction_version <= ledger_version {
            rest.push(events.last().event)
        } else {
            rest
        }
    }
}

/// Law: filtering never yields more events than the store returned.
pub proof fn lemma_committed_events_len(events: Seq<EventWithVersion>, ledger_version: u64)
    ensures
        committed_events(events, ledger_version).len() <= events.len(),
    decreases events.len(),
{
    if events.len() > 0 {
        lemma_committed_events_len(events.drop_last(), ledger_version);
    }
}

/// Keeps the events emitted at or below `ledger_version`, in the order
/// the store returned them.
pub fn filter_committed_events(events: Vec<EventWithVersion>, ledger_version: u64) -> (r: Vec<
    ContractEvent,
>)
    ensures
        r@ == committed_events(events@, ledger_version),
{
    let n = events.len();
    let mut remaining = events;
    let ghost all = remaining@;
    let mut out: Vec<ContractEvent> = Vec::new();
    let mut i: usize = 0;
    while i < n
        invariant
            i <= n,
            n == all.len(),
            remaining@ == all.skip(i as int),
            out@ == committed_events(all.take(i as int), ledger_version),
        decreases n - i,
    {
        proof {
            assert(all.skip(i as int)[0] == all[i as int]);
            assert(all.skip(i as int).remove(0) =~= all.skip(i as int + 1));
            assert(all.take(i as int + 1).drop_last() =~= all.take(i as int));
            assert(all.take(i as int + 1).last() == all[i as int]);
        }
        let entry = remaining.remove(0);
        if entry.transaction_version <= ledger_version {
            out.push(entry.event);
        }
        i += 1;
    }
    proof {
        assert(all.take(n as int) =~= all);
    }
    out
}

} // verus!
