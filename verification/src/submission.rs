//! The bridge into the transaction-submission queue (mempool).
//!
//! Each operation opens a fresh ticket, sends a tagged request into the
//! mempool's asynchronous request channel, and later folds the paired
//! response back into a caller-facing reply.  The bridge records which
//! request each open ticket belongs to, so that concurrent callers each
//! receive the outcome of their own request even when responses arrive
//! out of send order.  The channel itself — sending, awaiting, one
//! response per request — lives outside this layer; the bridge holds the
//! correlation state and the pure decisions.

use vstd::prelude::*;
use crate::error::ApiError;
use crate::transaction::SignedTransaction;
use crate::types::HashValue;

verus! {

/// The mempool's admission code for a submitted transaction.
#[derive(Clone, Copy, Debug, PartialEq, Eq, Structural)]
pub enum MempoolStatusCode {
    Accepted,
    InvalidSeqNumber,
    InvalidUpdate,
    VmError,
    MempoolIsFull,
    TooManyTransactions,
    UnknownStatus,
}

/// The mempool's admission status.
#[derive(Clone, Copy, Debug, PartialEq, Eq, Structural)]
pub struct MempoolStatus {
    pub code: MempoolStatusCode,
}

/// A tagged request into the mempool's request channel.
#[derive(Clone, Debug, PartialEq, Eq)]
pub enum MempoolRequest {
    SubmitTransaction(SignedTransaction),
    GetTransactionByHash(HashValue),
}

/// The mempool's answer to one request.
#[derive(Clone, Debug, PartialEq, Eq)]
pub enum MempoolResponse {
    /// Admission status plus the validation failure code the virtual
    /// machine reported, if any.
    Submission(MempoolStatus, Option<u64>),
    /// The transaction if still pending; nothing if already committed or
    /// evicted.  "Not found" is a normal answer, never an error.
    Pending(Option<SignedTransaction>),
}

/// Result of forwarding a signed transaction: accepted into the mempool,
/// or a structured rejection.  A rejection is a normal validation
/// outcome, distinct from the channel being unreachable
/// ([`ApiError::SubmissionChannelError`]).
#[derive(Clone, Copy, Debug, PartialEq, Eq, Structural)]
pub enum SubmissionOutcome {
    Accepted,
    Rejected(MempoolStatusCode, Option<u64>),
}

/// How an admission status folds into a submission outcome: a VM
/// validation failure or a non-accepting status is a rejection.
pub open spec fn submission_outcome_spec(
    status: MempoolStatus,
    vm_status: Option<u64>,
) -> SubmissionOutcome {
    if vm_status is Some {
        SubmissionOutcome::Rejected(status.code, vm_status)
    } else if status.code is Accepted {
        SubmissionOutcome::Accepted
    } else {
        SubmissionOutcome::Rejected(status.code, None)
    }
}

/// Folds the mempool's admission status into a submission outcome.
pub fn submission_outcome(status: MempoolStatus, vm_status: Option<u64>) -> (r: SubmissionOutcome)
    ensures
        r == submission_outcome_spec(status, vm_status),
{
    match vm_status {
        Option::Some(code) => SubmissionOutcome::Rejected(status.code, Option::Some(code)),
        Option::None => {
            match status.code {
                MempoolStatusCode::Accepted => SubmissionOutcome::Accepted,
                code => SubmissionOutcome::Rejected(code, Option::None),
            }
        },
    }
}

/// The caller-facing reply correlated to one completed request.
#[derive(Clone, Debug, PartialEq, Eq)]
pub enum BridgeReply {
    Submission(SubmissionOutcome),
    Pending(Option<SignedTransaction>),
}

/// What completing a request yields for a given request/response pair.  A
/// response of the wrong shape for the request means the channel protocol
/// was violated.
pub open spec fn reply_spec(req: MempoolRequest, resp: MempoolResponse) -> Result<
    BridgeReply,
    ApiError,
> {
    match req {
        MempoolRequest::SubmitTransaction(_) => match resp {
            MempoolResponse::Submission(status, vm_status) => Ok(
                BridgeReply::Submission(submission_outcome_spec(status, vm_status)),
            ),
            _ => Err(ApiError::SubmissionChannelError),
        },
        MempoolRequest::GetTransactionByHash(_) => match resp {
            MempoolResponse::Pending(txn) => Ok(BridgeReply::Pending(txn)),
            _ => Err(ApiError::SubmissionChannelError),
        },
    }
}

/// The association of open tickets to their requests.
pub open spec fn map_of(entries: Seq<(u64, MempoolRequest)>) -> Map<u64, MempoolRequest>
    decreases entries.len(),
{
    if entries.len() == 0 {
        Map::empty()
    } else {
        map_of(entries.drop_last()).insert(entries.last().0, entries.last().1)
    }
}

/// A ticket is associated iff some entry carries it.
proof fn lemma_map_of_keys(entries: Seq<(u64, MempoolRequest)>, k: u64)
    ensures
        map_of(entries).contains_key(k) <==> exists|i: int|
            0 <= i < entries.len() && entries[i].0 == k,
    decreases entries.len(),
{
    if entries.len() > 0 {
        let prefix = entries.drop_last();
        lemma_map_of_keys(prefix, k);
        if entries.last().0 == k {
            assert(entries[entries.len() - 1].0 == k);
        } else {
            if map_of(entries).contains_key(k) {
                let i = choose|i: int| 0 <= i < prefix.len() && prefix[i].0 == k;
                assert(entries[i].0 == k);
            }
            if exists|i: int| 0 <= i < entries.len() && entries[i].0 == k {
                let i = choose|i: int| 0 <= i < entries.len() && entries[i].0 == k;
                assert(i < entries.len() - 1);
                assert(prefix[i].0 == k);
            }
        }
    }
}

/// Whether the entry sequence is a valid pending table for `bound`: every
/// ticket is below `bound` and no ticket repeats.
pub open spec fn entries_wf(entries: Seq<(u64, MempoolRequest)>, bound: u64) -> bool {
    &&& forall|i: int| 0 <= i < entries.len() ==> (#[trigger] entries[i]).0 < bound
    &&& forall|i: int, j: int|
        0 <= i < j < entries.len() ==> (#[trigger] entries[i]).0 != (#[trigger] entries[j]).0
}

/// Removing the entry at `i` removes exactly its ticket from the
/// association.
proof fn lemma_map_of_remove(entries: Seq<(u64, MempoolRequest)>, bound: u64, i: int)
    requires
        0 <= i < entries.len(),
        entries_wf(entries, bound),
    ensures
        map_of(entries.remove(i)) == map_of(entries).remove(entries[i].0),
    decreases entries.len(),
{
    let k = entries[i].0;
    let prefix = entries.drop_last();
    assert forall|p: int, q: int|
        0 <= p < q < prefix.len() implies (#[trigger] prefix[p]).0 != (#[trigger] prefix[q]).0 by {
        assert(prefix[p] == entries[p]);
        assert(prefix[q] == entries[q]);
    }
    assert forall|p: int| 0 <= p < prefix.len() implies (#[trigger] prefix[p]).0 < bound by {
        assert(prefix[p] == entries[p]);
    }
    lemma_map_of_keys(prefix, k);
    if i == entries.len() - 1 {
        assert(entries.remove(i) =~= prefix);
        assert(!map_of(prefix).contains_key(k));
        assert(map_of(entries).remove(k) =~= map_of(prefix));
    } else {
        let shorter = entries.remove(i);
        assert(shorter.drop_last() =~= prefix.remove(i));
        assert(shorter.last() == entries.last());
        lemma_map_of_remove(prefix, bound, i);
        assert(map_of(shorter) == map_of(prefix).remove(k).insert(
            entries.last().0,
            entries.last().1,
        ));
        assert(entries.last().0 != k);
        assert(map_of(prefix).remove(k).insert(entries.last().0, entries.last().1)
            =~= map_of(prefix).insert(entries.last().0, entries.last().1).remove(k));
    }
}

/// Removing an entry keeps the pending table well formed.
proof fn lemma_entries_wf_remove(entries: Seq<(u64, MempoolRequest)>, bound: u64, i: int)
    requires
        0 <= i < entries.len(),
        entries_wf(entries, bound),
    ensures
        entries_wf(entries.remove(i), bound),
{
    let shorter = entries.remove(i);
    assert forall|j: int| 0 <= j < shorter.len() implies (#[trigger] shorter[j]).0 < bound by {
        if j < i {
            assert(shorter[j] == entries[j]);
        } else {
            assert(shorter[j] == entries[j + 1]);
        }
    }
    assert forall|p: int, q: int|
        0 <= p < q < shorter.len() implies (#[trigger] shorter[p]).0 != (
    #[trigger] shorter[q]).0 by {
        let p0: int = if p < i {
            p
        } else {
            p + 1
        };
        let q0: int = if q < i {
            q
        } else {
            q + 1
        };
        assert(shorter[p] == entries[p0]);
        assert(shorter[q] == entries[q0]);
    }
}

/// Correlation state for in-flight mempool requests.  Tickets are issued
/// in increasing order and never reused.
pub struct SubmissionBridge {
    next_ticket: u64,
    pending: Vec<(u64, MempoolRequest)>,
}

impl SubmissionBridge {
    /// The open tickets and the request each belongs to.
    pub closed spec fn pending_map(&self) -> Map<u64, MempoolRequest> {
        map_of(self.pending@)
    }

    /// Internal consistency of the bridge.
    pub closed spec fn wf(&self) -> bool {
        entries_wf(self.pending@, self.next_ticket)
    }

    /// Whether a fresh ticket can still be issued.
    pub closed spec fn can_issue_spec(&self) -> bool {
        self.next_ticket < u64::MAX
    }

    /// Whether a fresh ticket can still be issued; false only after
    /// 2^64 - 1 requests.
    pub fn can_issue(&self) -> (r: bool)
        ensures
            r == self.can_issue_spec(),
    {
        self.next_ticket < u64::MAX
    }

    /// A bridge with no in-flight request.
    pub fn new() -> (r: SubmissionBridge)
        ensures
            r.wf(),
            r.pending_map() == Map::<u64, MempoolRequest>::empty(),
            r.can_issue_spec(),
    {
        SubmissionBridge { next_ticket: 0, pending: Vec::new() }
    }

    /// Opens a fresh ticket for `request` and records the pair.  The
    /// ticket is distinct from every ticket still open, so the response
    /// delivered under it can only be folded back into this request.
    pub fn begin_request(&mut self, request: MempoolRequest) -> (ticket: u64)
        requires
            old(self).wf(),
            old(self).can_issue_spec(),
        ensures
            final(self).wf(),
            !old(self).pending_map().contains_key(ticket),
            final(self).pending_map() == old(self).pending_map().insert(ticket, request),
    {
        let ticket = self.next_ticket;
        proof {
            lemma_map_of_keys(self.pending@, ticket);
        }
        self.next_ticket = self.next_ticket + 1;
        self.pending.push((ticket, request));
        proof {
            assert(self.pending@.drop_last() =~= old(self).pending@);
        }
        ticket
    }

    /// Closes `ticket` with the response delivered for it and folds the
    /// pair into the caller-facing reply.  A ticket that is not open
    /// means the correlation was lost, a channel-level failure.
    pub fn complete_request(&mut self, ticket: u64, response: MempoolResponse) -> (r: Result<
        BridgeReply,
        ApiError,
    >)
        requires
            old(self).wf(),
        ensures
            final(self).wf(),
            final(self).pending_map() == old(self).pending_map().remove(ticket),
            old(self).pending_map().contains_key(ticket) ==> r == reply_spec(
                old(self).pending_map()[ticket],
                response,
            ),
            !old(self).pending_map().contains_key(ticket) ==> (r matches Err(e) && e
                == ApiError::SubmissionChannelError),
    {
        proof {
            lemma_map_of_keys(self.pending@, ticket);
        }
        let n = self.pending.len();
        let mut i: usize = 0;
        while i < n
            invariant
                i <= n,
                n == self.pending@.len(),
                *self == *old(self),
                entries_wf(self.pending@, self.next_ticket),
                forall|j: int| 0 <= j < i ==> (#[trigger] self.pending@[j]).0 != ticket,
            decreases n - i,
        {
            if self.pending[i].0 == ticket {
                proof {
                    lemma_map_of_remove(self.pending@, self.next_ticket, i as int);
                    lemma_map_of_entry(self.pending@, self.next_ticket, i as int);
                    lemma_entries_wf_remove(self.pending@, self.next_ticket, i as int);
                }
                let (_, request) = self.pending.remove(i);
                return reply_for(&request, response);
            }
            i += 1;
        }
        proof {
            assert(!old(self).pending_map().contains_key(ticket));
            assert(old(self).pending_map().remove(ticket) =~= old(self).pending_map());
        }
        Err(ApiError::SubmissionChannelError)
    }

    /// Drops `ticket` without a reply; for a request that could not be
    /// delivered at all.
    pub fn cancel_request(&mut self, ticket: u64)
        requires
            old(self).wf(),
        ensures
            final(self).wf(),
            final(self).pending_map() == old(self).pending_map().remove(ticket),
    {
        proof {
            lemma_map_of_keys(self.pending@, ticket);
        }
        let n = self.pending.len();
        let mut i: usize = 0;
        while i < n
            invariant
                i <= n,
                n == self.pending@.len(),
                *self == *old(self),
                entries_wf(self.pending@, self.next_ticket),
                forall|j: int| 0 <= j < i ==> (#[trigger] self.pending@[j]).0 != ticket,
            decreases n - i,
        {
            if self.pending[i].0 == ticket {
                proof {
                    lemma_map_of_remove(self.pending@, self.next_ticket, i as int);
                    lemma_entries_wf_remove(self.pending@, self.next_ticket, i as int);
                }
                let _ = self.pending.remove(i);
                return;
            }
            i += 1;
        }
        proof {
            assert(!old(self).pending_map().contains_key(ticket));
            assert(old(self).pending_map().remove(ticket) =~= old(self).pending_map());
        }
    }
}

/// The association holds the entry's own request under its ticket,
/// provided no later entry reuses the ticket.
proof fn lemma_map_of_entry(entries: Seq<(u64, MempoolRequest)>, bound: u64, i: int)
    requires
        0 <= i < entries.len(),
        entries_wf(entries, bound),
    ensures
        map_of(entries).contains_key(entries[i].0),
        map_of(entries)[entries[i].0] == entries[i].1,
    decreases entries.len(),
{
    if i == entries.len() - 1 {
    } else {
        let prefix = entries.drop_last();
        assert forall|p: int, q: int|
            0 <= p < q < prefix.len() implies (#[trigger] prefix[p]).0 != (
        #[trigger] prefix[q]).0 by {
            assert(prefix[p] == entries[p]);
            assert(prefix[q] == entries[q]);
        }
        assert forall|p: int| 0 <= p < prefix.len() implies (#[trigger] prefix[p]).0 < bound by {
            assert(prefix[p] == entries[p]);
        }
        lemma_map_of_entry(prefix, bound, i);
        assert(entries.drop_last()[i] == entries[i]);
        assert(entries.last().0 != entries[i].0);
    }
}

/// Folds a request/response pair into the caller-facing reply.
fn reply_for(request: &MempoolRequest, response: MempoolResponse) -> (r: Result<
    BridgeReply,
    ApiError,
>)
    ensures
        r == reply_spec(*request, response),
{
    match request {
        MempoolRequest::SubmitTransaction(_) => {
            match response {
                MempoolResponse::Submission(status, vm_status) => Ok(
                    BridgeReply::Submission(submission_outcome(status, vm_status)),
                ),
                _ => Err(ApiError::SubmissionChannelError),
            }
        },
        MempoolRequest::GetTransactionByHash(_) => {
            match response {
                MempoolResponse::Pending(txn) => Ok(BridgeReply::Pending(txn)),
                _ => Err(ApiError::SubmissionChannelError),
            }
        },
    }
}

/// Law: concurrent submissions do not cross-talk.  Two requests opened on
/// the same bridge get distinct tickets, the bridge keeps each request
/// under its own ticket, and completing either ticket first still leaves
/// the other one mapped to its own request — so each caller's reply is
/// folded from its own request, whatever order the responses arrive in.
pub proof fn lemma_submission_correlation(
    before: Map<u64, MempoolRequest>,
    ticket1: u64,
    request1: MempoolRequest,
    ticket2: u64,
    request2: MempoolRequest,
)
    requires
        !before.contains_key(ticket1),
        !before.insert(ticket1, request1).contains_key(ticket2),
    ensures
        ticket1 != ticket2,
        before.insert(ticket1, request1).insert(ticket2, request2)[ticket1] == request1,
        before.insert(ticket1, request1).insert(ticket2, request2)[ticket2] == request2,
        before.insert(ticket1, request1).insert(ticket2, request2).remove(ticket2)[ticket1]
            == request1,
        before.insert(ticket1, request1).insert(ticket2, request2).remove(ticket1)[ticket2]
            == request2,
{
}

} // verus!
