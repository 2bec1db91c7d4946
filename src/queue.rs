use vstd::prelude::*;

use crate::clock::{now, Timestamp};
use crate::mutation::{type_of, Update, UpdateData};
use crate::status::{
    finish, finished_status, legal_transition, EnqueuedUpdateResult, Outcome, UpdateStatus,
};

verus! {

/// What the queue keeps of one mutation: the mutation and its current status.
#[derive(Debug)]
pub struct UpdateRecord {
    pub update: Update,
    pub status: UpdateStatus,
}

/// Why a queue operation was refused.
#[derive(Clone, Copy, Debug, PartialEq, Eq, Structural)]
pub enum QueueError {
    /// No mutation has this identifier.
    NotFound,
    /// The mutation's status is already final.
    InvalidTransition,
    /// Every identifier has been handed out.
    IdsExhausted,
    /// A stored record at this position does not fit the log it is in.
    CorruptRecord { position: usize },
    /// An application result arrived while no mutation was being applied.
    NothingInProgress,
    /// Durable storage failed to write a record.
    StorageFailed,
}

/// The record at `position` fits a log: its status carries the identifier
/// `position + 1` and the mutation's enqueue time, which is a valid instant.
pub open spec fn record_fits(r: UpdateRecord, position: int) -> bool {
    &&& r.status.id() == position + 1
    &&& r.status.enqueued_time() == r.update.enqueued_at
    &&& r.update.enqueued_at.wf()
}

/// A log of records: identifiers run from 1 upward with no gap, in order.
pub open spec fn valid_log(log: Seq<UpdateRecord>) -> bool {
    &&& log.len() <= u64::MAX
    &&& forall|i: int| 0 <= i < log.len() ==> #[trigger] record_fits(log[i], i)
}

/// The record that enqueuing `data` at `at` with identifier `id` appends.
pub open spec fn enqueued_record(id: u64, data: UpdateData, at: Timestamp) -> UpdateRecord {
    UpdateRecord {
        update: Update { data, enqueued_at: at },
        status: UpdateStatus::Enqueued {
            content: EnqueuedUpdateResult { update_id: id, update_type: type_of(data), enqueued_at: at },
        },
    }
}

/// The status of the mutation with identifier `id`, if one was issued.
pub open spec fn status_in(log: Seq<UpdateRecord>, id: u64) -> Option<UpdateStatus> {
    if 1 <= id <= log.len() {
        Some(log[id - 1].status)
    } else {
        None
    }
}

/// Every status of `before` may have moved to the one at its place in
/// `after`, and nothing was removed.
pub open spec fn statuses_advance(before: Seq<UpdateRecord>, after: Seq<UpdateRecord>) -> bool {
    &&& before.len() <= after.len()
    &&& forall|i: int|
        0 <= i < before.len() ==> legal_transition(#[trigger] before[i].status, after[i].status)
            && after[i].update == before[i].update
}

/// Every mutation of the log is final.
pub open spec fn all_final(log: Seq<UpdateRecord>) -> bool {
    forall|j: int| 0 <= j < log.len() ==> (#[trigger] log[j].status).is_terminal()
}

/// Mutation `id` may be handed to the index: it waits, and every mutation
/// before it is final.
pub open spec fn dispatch_allowed(log: Seq<UpdateRecord>, id: u64) -> bool {
    &&& 1 <= id <= log.len()
    &&& log[id - 1].status is Enqueued
    &&& forall|j: int| 0 <= j < id - 1 ==> (#[trigger] log[j].status).is_terminal()
}

/// Some record of the log carries identifier `id`.
pub open spec fn issued(log: Seq<UpdateRecord>, id: int) -> bool {
    exists|i: int| 0 <= i < log.len() && #[trigger] log[i].status.id() == id
}

/// Identifiers in a log are strictly increasing with their position, have no
/// gap and no duplicate: exactly the identifiers from 1 to the log's length
/// occur.
pub proof fn lemma_identifiers_gap_free(log: Seq<UpdateRecord>)
    requires
        valid_log(log),
    ensures
        forall|i: int, j: int| 0 <= i < j < log.len() ==> #[trigger] log[i].status.id() < #[trigger] log[j].status.id(),
        forall|id: int| #[trigger] issued(log, id) <==> 1 <= id <= log.len(),
{
    assert forall|i: int, j: int| 0 <= i < j < log.len() implies #[trigger] log[i].status.id() < #[trigger] log[j].status.id() by {
        assert(record_fits(log[i], i));
        assert(record_fits(log[j], j));
    }
    assert forall|id: int| #[trigger] issued(log, id) <==> 1 <= id <= log.len() by {
        if 1 <= id <= log.len() {
            assert(record_fits(log[id - 1], id - 1));
        }
        if issued(log, id) {
            let i = choose|i: int| 0 <= i < log.len() && #[trigger] log[i].status.id() == id;
            assert(record_fits(log[i], i));
        }
    }
}

/// A log that ends with a freshly enqueued record is valid, holds that
/// mutation as waiting, and the next identifier it hands out is the successor
/// of the new one, which no record uses yet. This is the state a restart
/// recovers from when the process stopped right after the record was stored.
pub proof fn lemma_recovery_after_enqueue(log: Seq<UpdateRecord>, data: UpdateData, at: Timestamp)
    requires
        valid_log(log),
        at.wf(),
        log.len() < u64::MAX,
    ensures
        ({
            let id = (log.len() + 1) as u64;
            let stored = log.push(enqueued_record(id, data, at));
            &&& valid_log(stored)
            &&& status_in(stored, id) == Some(enqueued_record(id, data, at).status)
            &&& status_in(stored, id) matches Some(s) && s is Enqueued
            &&& stored.len() == id
            &&& forall|i: int| 0 <= i < stored.len() ==> #[trigger] stored[i].status.id() != stored.len() + 1
        }),
{
    let id = (log.len() + 1) as u64;
    let stored = log.push(enqueued_record(id, data, at));
    assert forall|i: int| 0 <= i < stored.len() implies #[trigger] record_fits(stored[i], i) by {
        if i < log.len() {
            assert(stored[i] == log[i]);
        }
    }
    assert forall|i: int| 0 <= i < stored.len() implies #[trigger] stored[i].status.id() != stored.len() + 1 by {
        assert(record_fits(stored[i], i));
    }
}

/// Two queries of the same identifier on the same log report the same status.
pub proof fn lemma_status_query_repeatable(
    log: Seq<UpdateRecord>,
    id: u64,
    first: Option<UpdateStatus>,
    second: Option<UpdateStatus>,
)
    requires
        first matches Some(s) ==> status_in(log, id) == Some(s),
        first is None <==> status_in(log, id) is None,
        second matches Some(s) ==> status_in(log, id) == Some(s),
        second is None <==> status_in(log, id) is None,
    ensures
        first == second,
{
}

/// Over any run of queue operations, every status only advances: moves
/// compose, and a status that was final is still exactly the same.
pub proof fn lemma_history_advances(a: Seq<UpdateRecord>, b: Seq<UpdateRecord>, c: Seq<UpdateRecord>)
    requires
        statuses_advance(a, b),
        statuses_advance(b, c),
    ensures
        statuses_advance(a, c),
        forall|i: int| 0 <= i < a.len() && (#[trigger] a[i].status).is_terminal() ==> c[i].status == a[i].status,
{
    assert forall|i: int| 0 <= i < a.len() implies legal_transition(#[trigger] a[i].status, c[i].status)
        && c[i].update == a[i].update && (a[i].status.is_terminal() ==> c[i].status == a[i].status) by {
        assert(legal_transition(b[i].status, c[i].status));
        crate::status::lemma_transitions_compose(a[i].status, b[i].status, c[i].status);
    }
}

/// Where mutation `later` may be dispatched, every mutation with a smaller
/// identifier is already final.
pub proof fn lemma_dispatch_order(log: Seq<UpdateRecord>, earlier: u64, later: u64)
    requires
        dispatch_allowed(log, later),
        1 <= earlier < later,
    ensures
        status_in(log, earlier) matches Some(s) && s.is_terminal(),
{
    assert(log[earlier - 1].status.is_terminal());
}

/// The ordered store of mutations and their statuses.
pub struct UpdateQueue {
    records: Vec<UpdateRecord>,
}

impl View for UpdateQueue {
    type V = Seq<UpdateRecord>;

    closed spec fn view(&self) -> Seq<UpdateRecord> {
        self.records@
    }
}

impl UpdateQueue {
    /// The queue's records form a valid log.
    pub open spec fn wf(&self) -> bool {
        valid_log(self@)
    }

    /// An empty queue; its first mutation gets identifier 1.
    pub fn new() -> (r: UpdateQueue)
        ensures
            r.wf(),
            r@ == Seq::<UpdateRecord>::empty(),
    {
        UpdateQueue { records: Vec::new() }
    }

    /// Rebuilds a queue from stored records, which must form a valid log.
    /// The counter of identifiers comes from the records alone.
    pub fn recover(records: Vec<UpdateRecord>) -> (r: Result<UpdateQueue, QueueError>)
        ensures
            valid_log(records@) <==> r is Ok,
            r matches Ok(q) ==> q@ == records@ && q.wf(),
            r matches Err(e) ==> (e matches QueueError::CorruptRecord { position }
                && position < records@.len() && !record_fits(records@[position as int], position as int)
                && forall|i: int| 0 <= i < position ==> #[trigger] record_fits(records@[i], i)),
    {
        let n = records.len();
        let mut i: usize = 0;
        while i < n
            invariant
                n == records@.len(),
                i <= n,
                forall|j: int| 0 <= j < i ==> #[trigger] record_fits(records@[j], j),
            decreases n - i,
        {
            let r = &records[i];
            let t = r.update.enqueued_at;
            if r.status.update_id() as u128 != i as u128 + 1 || *r.status.enqueued_at() != t
                || t.nanosecond >= crate::clock::NANOS_PER_SECOND {
                proof {
                    assert(!record_fits(records@[i as int], i as int));
                }
                return Err(QueueError::CorruptRecord { position: i });
            }
            i = i + 1;
        }
        proof {
            if n > 0 {
                assert(record_fits(records@[n - 1], n - 1));
            }
        }
        Ok(UpdateQueue { records })
    }

    /// The stored records, in identifier order, as they are to be persisted.
    pub fn records(&self) -> (r: &Vec<UpdateRecord>)
        ensures
            r@ == self@,
    {
        &self.records
    }

    /// The number of mutations ever enqueued.
    pub fn len(&self) -> (r: usize)
        ensures
            r == self@.len(),
    {
        self.records.len()
    }

    /// Appends `data`, enqueued at `at`, under the next identifier, and returns
    /// its waiting status. Fails only when every identifier is taken.
    pub fn enqueue_at(&mut self, data: UpdateData, at: Timestamp) -> (r: Result<EnqueuedUpdateResult, QueueError>)
        requires
            old(self).wf(),
            at.wf(),
        ensures
            final(self).wf(),
            old(self)@.len() < u64::MAX <==> r is Ok,
            r matches Ok(e) ==> e.update_id == old(self)@.len() + 1 && e.update_type == type_of(data)
                && e.enqueued_at == at
                && final(self)@ == old(self)@.push(enqueued_record(e.update_id, data, at)),
            r is Err ==> r == Err::<EnqueuedUpdateResult, QueueError>(QueueError::IdsExhausted)
                && final(self)@ == old(self)@,
            statuses_advance(old(self)@, final(self)@),
    {
        let n = self.records.len();
        if n as u64 == u64::MAX {
            return Err(QueueError::IdsExhausted);
        }
        let id: u64 = n as u64 + 1;
        let summary = data.update_type();
        let reply = EnqueuedUpdateResult { update_id: id, update_type: summary.duplicate(), enqueued_at: at };
        let status = UpdateStatus::Enqueued {
            content: EnqueuedUpdateResult { update_id: id, update_type: summary, enqueued_at: at },
        };
        self.records.push(UpdateRecord { update: Update { data, enqueued_at: at }, status });
        proof {
            assert(record_fits(self@[n as int], n as int));
            assert forall|i: int| 0 <= i < self@.len() implies #[trigger] record_fits(self@[i], i) by {
                if i < n {
                    assert(self@[i] == old(self)@[i]);
                }
            }
            assert forall|i: int| 0 <= i < old(self)@.len() implies legal_transition(
                #[trigger] old(self)@[i].status, self@[i].status) && self@[i].update == old(self)@[i].update by {
                assert(self@[i] == old(self)@[i]);
            }
        }
        Ok(reply)
    }

    /// Appends `data` under the next identifier, stamped with the current time.
    pub fn enqueue(&mut self, data: UpdateData) -> (r: Result<EnqueuedUpdateResult, QueueError>)
        requires
            old(self).wf(),
        ensures
            final(self).wf(),
            old(self)@.len() < u64::MAX <==> r is Ok,
            r matches Ok(e) ==> e.update_id == old(self)@.len() + 1 && e.update_type == type_of(data)
                && e.enqueued_at.wf()
                && final(self)@ == old(self)@.push(enqueued_record(e.update_id, data, e.enqueued_at)),
            r is Err ==> r == Err::<EnqueuedUpdateResult, QueueError>(QueueError::IdsExhausted)
                && final(self)@ == old(self)@,
            statuses_advance(old(self)@, final(self)@),
    {
        let at = now();
        self.enqueue_at(data, at)
    }

    /// The lowest identifier whose mutation still waits, or `None` when all
    /// are final. It only looks; nothing is consumed.
    pub fn next_pending(&self) -> (r: Option<u64>)
        requires
            self.wf(),
        ensures
            r is None <==> all_final(self@),
            r matches Some(id) ==> dispatch_allowed(self@, id),
    {
        let n = self.records.len();
        let mut i: usize = 0;
        while i < n
            invariant
                n == self@.len(),
                i <= n,
                self.wf(),
                forall|j: int| 0 <= j < i ==> (#[trigger] self@[j].status).is_terminal(),
            decreases n - i,
        {
            if !self.records[i].status.is_finished() {
                proof {
                    assert(record_fits(self@[i as int], i as int));
                }
                return Some(i as u64 + 1);
            }
            i = i + 1;
        }
        None
    }

    /// Closes the waiting mutation `update_id` with `outcome`.
    pub fn record_outcome(&mut self, update_id: u64, outcome: Outcome) -> (r: Result<(), QueueError>)
        requires
            old(self).wf(),
        ensures
            final(self).wf(),
            statuses_advance(old(self)@, final(self)@),
            status_in(old(self)@, update_id) is None <==> r == Err::<(), QueueError>(QueueError::NotFound),
            (status_in(old(self)@, update_id) matches Some(s) && s.is_terminal())
                <==> r == Err::<(), QueueError>(QueueError::InvalidTransition),
            (status_in(old(self)@, update_id) matches Some(s) && s is Enqueued) <==> r is Ok,
            r is Err ==> final(self)@ == old(self)@,
            r is Ok ==> (old(self)@[update_id - 1].status matches UpdateStatus::Enqueued { content }
                && final(self)@ == old(self)@.update(update_id - 1, UpdateRecord {
                    update: old(self)@[update_id - 1].update,
                    status: finished_status(content, outcome),
                })),
    {
        let n = self.records.len();
        if update_id == 0 || update_id as u128 > n as u128 {
            return Err(QueueError::NotFound);
        }
        let i = (update_id - 1) as usize;
        let ghost before = self@;
        let closed = match &self.records[i].status {
            UpdateStatus::Enqueued { content } => {
                let waiting = EnqueuedUpdateResult {
                    update_id: content.update_id,
                    update_type: content.update_type.duplicate(),
                    enqueued_at: content.enqueued_at,
                };
                proof {
                    assert(record_fits(before[i as int], i as int));
                    crate::status::lemma_finish_is_legal(waiting, outcome);
                }
                finish(waiting, outcome)
            },
            _ => {
                return Err(QueueError::InvalidTransition);
            },
        };
        self.records[i].status = closed;
        proof {
            assert(self@ =~= before.update(i as int, self@[i as int]));
            assert forall|k: int| 0 <= k < self@.len() implies #[trigger] record_fits(self@[k], k) by {
                if k != i {
                    assert(self@[k] == before[k]);
                }
            }
            assert forall|k: int| 0 <= k < before.len() implies legal_transition(
                #[trigger] before[k].status, self@[k].status) && self@[k].update == before[k].update by {
                if k != i {
                    assert(self@[k] == before[k]);
                }
            }
        }
        Ok(())
    }

    /// The status of mutation `update_id`, or `None` where that identifier was
    /// never issued.
    pub fn get_status(&self, update_id: u64) -> (r: Option<&UpdateStatus>)
        ensures
            r matches Some(s) ==> status_in(self@, update_id) == Some(*s),
            r is None <==> status_in(self@, update_id) is None,
    {
        if update_id == 0 || update_id as u128 > self.records.len() as u128 {
            None
        } else {
            Some(&self.records[(update_id - 1) as usize].status)
        }
    }

    /// The mutation with identifier `update_id`, or `None` where that
    /// identifier was never issued.
    pub fn get_update(&self, update_id: u64) -> (r: Option<&Update>)
        ensures
            r matches Some(u) ==> 1 <= update_id <= self@.len() && *u == self@[update_id - 1].update,
            r is None <==> !(1 <= update_id <= self@.len()),
    {
        if update_id == 0 || update_id as u128 > self.records.len() as u128 {
            None
        } else {
            Some(&self.records[(update_id - 1) as usize].update)
        }
    }

    /// The statuses of the identifiers from `first` to `last`, both included,
    /// that were issued, in ascending order of identifier.
    pub fn list_statuses(&self, first: u64, last: u64) -> (r: Vec<&UpdateStatus>)
        requires
            self.wf(),
        ensures
            r@.len() == listed_count(self@.len() as int, first as int, last as int),
            forall|k: int|
                0 <= k < r@.len() ==> *(#[trigger] r@[k]) == self@[listed_from(first as int) - 1 + k].status,
    {
        let n = self.records.len();
        let lo: usize = if first == 0 { 0 } else if first as u128 > n as u128 { n } else { (first - 1) as usize };
        let hi: usize = if last as u128 >= n as u128 { n } else { last as usize };
        let mut out: Vec<&UpdateStatus> = Vec::new();
        let mut i: usize = lo;
        while i < hi
            invariant
                n == self@.len(),
                lo <= n,
                hi <= n,
                lo <= i,
                lo < hi ==> i <= hi,
                lo >= hi ==> i == lo,
                lo == (if first == 0 { 0 } else if first > n { n as int } else { first - 1 }),
                hi == (if last >= n { n as int } else { last as int }),
                out@.len() == i - lo,
                forall|k: int| 0 <= k < out@.len() ==> *(#[trigger] out@[k]) == self@[lo + k].status,
            decreases hi - i,
        {
            out.push(&self.records[i].status);
            i = i + 1;
        }
        proof {
            if lo < hi {
                assert(out@.len() == hi - lo);
            } else {
                assert(out@.len() == 0);
            }
        }
        out
    }
}

/// The first identifier that a listing from `first` can hold.
pub open spec fn listed_from(first: int) -> int {
    if first < 1 {
        1
    } else {
        first
    }
}

/// How many issued identifiers, of `n`, lie from `first` to `last`.
pub open spec fn listed_count(n: int, first: int, last: int) -> int {
    let hi = if last < n {
        last
    } else {
        n
    };
    if listed_from(first) <= hi {
        hi - listed_from(first) + 1
    } else {
        0
    }
}

} // verus!
