//! The transaction-side data model: transactions, write-sets, events, and
//! the partial records the store hands back.
//!
//! The store addresses everything by ledger version — the strictly
//! increasing sequence number of a committed transaction — and never by
//! block.

use vstd::prelude::*;
use crate::types::{AccountAddress, HashValue};

verus! {

/// A user-signed transaction as forwarded to the mempool.
#[derive(Clone, Debug, PartialEq, Eq)]
pub struct SignedTransaction {
    pub sender: AccountAddress,
    pub sequence_number: u64,
    pub payload: Vec<u8>,
    /// The hash under which the transaction is known once committed or
    /// while pending in the mempool.
    pub hash: HashValue,
}

/// The system-generated transaction that marks a block boundary.
#[derive(Clone, Debug, PartialEq, Eq)]
pub struct BlockMetadataTransaction {
    /// The block hash.
    pub id: HashValue,
    pub epoch: u64,
    pub round: u64,
    /// Block timestamp in microseconds; zero only at the genesis boundary.
    pub timestamp_usecs: u64,
    pub proposer: AccountAddress,
}

/// A committed ledger transaction.
#[derive(Clone, Debug, PartialEq, Eq)]
pub enum Transaction {
    /// The one-off transaction that bootstraps the chain.
    Genesis,
    /// The boundary transaction of an ordinary block.
    BlockMetadata(BlockMetadataTransaction),
    /// A user-submitted transaction.
    User(SignedTransaction),
    /// A state-checkpoint marker.
    StateCheckpoint,
}

/// The typed path of an on-chain resource: owning address plus struct tag.
#[derive(Clone, Debug, PartialEq, Eq)]
pub struct ResourceTag {
    pub address: AccountAddress,
    pub module: Vec<u8>,
    pub name: Vec<u8>,
}

/// The key of one state write.
#[derive(Clone, Debug, PartialEq, Eq)]
pub enum StateKey {
    /// An access path addressing a typed resource.
    Resource(ResourceTag),
    /// Any other key shape, carried raw.
    Raw(Vec<u8>),
}

/// One state mutation produced by executing a transaction.
#[derive(Clone, Debug, PartialEq, Eq)]
pub enum WriteOp {
    /// The key now holds this value.
    Value(Vec<u8>),
    /// The key was deleted.
    Deletion,
}

/// The set of state-key/value mutations of one transaction, in the order
/// the store reports them.
#[derive(Clone, Debug, PartialEq, Eq)]
pub struct WriteSet {
    pub writes: Vec<(StateKey, WriteOp)>,
}

/// The full on-chain state of one account: every state key under the
/// account's resource prefix, with its current value.
#[derive(Clone, Debug, PartialEq, Eq)]
pub struct AccountState {
    pub data: Vec<(StateKey, Vec<u8>)>,
}

/// A key identifying one event stream.
#[derive(Clone, Debug, PartialEq, Eq)]
pub struct EventKey {
    pub creator: AccountAddress,
    pub creation_number: u64,
}

/// One emitted contract event.
#[derive(Clone, Debug, PartialEq, Eq)]
pub struct ContractEvent {
    pub key: EventKey,
    pub sequence_number: u64,
    pub data: Vec<u8>,
}

/// An event together with the version of the transaction that emitted it.
#[derive(Clone, Debug, PartialEq, Eq)]
pub struct EventWithVersion {
    pub transaction_version: u64,
    pub event: ContractEvent,
}

/// The proof-side summary of one committed transaction.
#[derive(Clone, Debug, PartialEq, Eq)]
pub struct TransactionInfo {
    pub transaction_hash: HashValue,
    pub gas_used: u64,
}

/// A committed transaction with its proof summary, as the store returns
/// it for point lookups.
#[derive(Clone, Debug, PartialEq, Eq)]
pub struct TransactionWithProof {
    pub version: u64,
    pub transaction: Transaction,
    /// Present only when events were requested.
    pub events: Option<Vec<ContractEvent>>,
    pub info: TransactionInfo,
}

/// The execution output of one transaction.
#[derive(Clone, Debug, PartialEq, Eq)]
pub struct TransactionOutput {
    pub write_set: WriteSet,
    pub events: Vec<ContractEvent>,
    pub gas_used: u64,
}

/// A window of transactions with their outputs, as the store returns it
/// for range queries.
#[derive(Clone, Debug, PartialEq, Eq)]
pub struct TransactionOutputListWithProof {
    pub transactions_and_outputs: Vec<(Transaction, TransactionOutput)>,
    /// Version of the first returned transaction; absent when the window
    /// is empty.
    pub first_transaction_output_version: Option<u64>,
    /// Proof summaries, one per returned transaction.
    pub proof_infos: Vec<TransactionInfo>,
}

/// A fully materialized, execution-augmented transaction record: the
/// transaction, its proof summary, its events and write-set, and the
/// accumulator root hash of the ledger as of `version`.
#[derive(Clone, Debug, PartialEq, Eq)]
pub struct TransactionOnChainData {
    pub version: u64,
    pub transaction: Transaction,
    pub info: TransactionInfo,
    pub events: Vec<ContractEvent>,
    /// Commitment to all transactions up to and including `version` — the
    /// ledger state as of `version`, not this transaction's own output.
    pub accumulator_root_hash: HashValue,
    pub changes: WriteSet,
}

} // verus!
