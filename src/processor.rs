use vstd::prelude::*;

use crate::clock::{elapsed, elapsed_nanos, Timestamp};
use crate::queue::{all_final, dispatch_allowed, statuses_advance, status_in, QueueError, UpdateQueue, UpdateRecord};
use crate::status::{finished_status, ApplierError, Outcome, UpdateStatus};

verus! {

/// What the single writer is doing.
#[derive(Clone, Copy, Debug, PartialEq, Eq, Structural)]
pub enum ProcessorState {
    /// Nothing is being applied.
    Idle,
    /// Mutation `update_id` was handed to the index at `started_at`.
    Applying { update_id: u64, started_at: Timestamp },
    /// Recording an outcome failed; nothing more is processed.
    Halted { error: QueueError },
}

/// What happened since the processor last decided.
#[derive(Debug)]
pub enum ProcessorEvent {
    /// The processor was woken (a poll, or a new enqueue) at `now`.
    Wake { now: Timestamp },
    /// The index applier finished the mutation in progress at `now`.
    Applied { result: Result<(), ApplierError>, now: Timestamp },
    /// Durable storage failed to write a record the processor produced.
    StoreFailed,
}

/// What the driver of the processor is to do next.
#[derive(Clone, Copy, Debug, PartialEq, Eq, Structural)]
pub enum ProcessorAction {
    /// Nothing to do until the next wake-up.
    Sleep,
    /// Hand mutation `update_id` to the index applier.
    Apply { update_id: u64 },
    /// The outcome of `update_id` was recorded; persist it, then wake again.
    Recorded { update_id: u64 },
    /// Stop processing and report `error`.
    Halt { error: QueueError },
}

/// The outcome that an applier result at `now` gives to a mutation started
/// at `started_at`.
pub open spec fn outcome_of(result: Result<(), ApplierError>, started_at: Timestamp, now: Timestamp) -> Outcome {
    match result {
        Ok(()) => Outcome::Processed {
            duration_nanos: elapsed_nanos(started_at, now) as u128,
            processed_at: now,
        },
        Err(error) => Outcome::Failed {
            error,
            duration_nanos: elapsed_nanos(started_at, now) as u128,
            processed_at: now,
        },
    }
}

/// The outcome that an applier result at `now` gives to a mutation started
/// at `started_at`; the duration is the time between the two.
pub fn outcome_for(result: Result<(), ApplierError>, started_at: Timestamp, now: Timestamp) -> (r: Outcome)
    ensures
        r == outcome_of(result, started_at, now),
{
    let duration_nanos = elapsed(started_at, now);
    match result {
        Ok(()) => Outcome::Processed { duration_nanos, processed_at: now },
        Err(error) => Outcome::Failed { error, duration_nanos, processed_at: now },
    }
}

/// The step from `state` (applying) on `event` (the applier's report): the
/// waiting mutation is closed with the outcome and the processor becomes
/// idle; a mutation that is unknown or already final halts it.
pub open spec fn applied_step(
    state: ProcessorState,
    event: ProcessorEvent,
    before: Seq<UpdateRecord>,
    after: Seq<UpdateRecord>,
    next: ProcessorState,
    action: ProcessorAction,
) -> bool {
    let update_id = state->Applying_update_id;
    let started_at = state->Applying_started_at;
    let result = event->Applied_result;
    let now = event->Applied_now;
    match status_in(before, update_id) {
        Some(UpdateStatus::Enqueued { content }) => action == (ProcessorAction::Recorded { update_id })
            && next == ProcessorState::Idle
            && after == before.update(update_id - 1, UpdateRecord {
                update: before[update_id - 1].update,
                status: finished_status(content, outcome_of(result, started_at, now)),
            }),
        Some(_) => action == (ProcessorAction::Halt { error: QueueError::InvalidTransition })
            && next == (ProcessorState::Halted { error: QueueError::InvalidTransition })
            && after == before,
        None => action == (ProcessorAction::Halt { error: QueueError::NotFound })
            && next == (ProcessorState::Halted { error: QueueError::NotFound })
            && after == before,
    }
}

/// The single writer that applies queued mutations one at a time, in
/// identifier order. It decides; its driver performs the actions.
pub struct Processor {
    pub state: ProcessorState,
}

impl Processor {
    /// A processor with nothing in progress.
    pub fn new() -> (r: Processor)
        ensures
            r.state == ProcessorState::Idle,
    {
        Processor { state: ProcessorState::Idle }
    }

    /// Takes one event and decides the next action.
    ///
    /// When idle and woken, it hands out the lowest waiting mutation, if any.
    /// While a mutation is being applied it hands out nothing else. When the
    /// applier reports, it records the outcome (a failure is recorded, and
    /// the queue goes on) and becomes idle; if recording fails, or storage
    /// fails to keep a record, it halts for good.
    pub fn step(&mut self, queue: &mut UpdateQueue, event: ProcessorEvent) -> (r: ProcessorAction)
        requires
            old(queue).wf(),
        ensures
            final(queue).wf(),
            statuses_advance(old(queue)@, final(queue)@),
            r matches ProcessorAction::Apply { update_id } ==> old(self).state is Idle
                && dispatch_allowed(old(queue)@, update_id),
            !(old(self).state is Idle) ==> !(r is Apply),
            old(self).state matches ProcessorState::Halted { error } ==> r == (ProcessorAction::Halt { error })
                && final(self).state == old(self).state && final(queue)@ == old(queue)@,
            !(old(self).state is Halted) && event is StoreFailed ==> r == (ProcessorAction::Halt {
                error: QueueError::StorageFailed,
            }) && final(self).state == (ProcessorState::Halted { error: QueueError::StorageFailed })
                && final(queue)@ == old(queue)@,
            old(self).state is Idle && event is Wake ==> final(queue)@ == old(queue)@
                && (all_final(old(queue)@) ==> r == ProcessorAction::Sleep
                    && final(self).state == ProcessorState::Idle)
                && (!all_final(old(queue)@) ==> (r matches ProcessorAction::Apply { update_id }
                    && dispatch_allowed(old(queue)@, update_id)
                    && final(self).state == (ProcessorState::Applying {
                        update_id,
                        started_at: event->Wake_now,
                    }))),
            old(self).state is Idle && event is Applied ==> final(queue)@ == old(queue)@
                && r == (ProcessorAction::Halt { error: QueueError::NothingInProgress })
                && final(self).state == (ProcessorState::Halted { error: QueueError::NothingInProgress }),
            old(self).state is Applying && event is Wake ==> r == ProcessorAction::Sleep
                && final(self).state == old(self).state && final(queue)@ == old(queue)@,
            old(self).state is Applying && event is Applied ==> applied_step(
                old(self).state,
                event,
                old(queue)@,
                final(queue)@,
                final(self).state,
                r,
            ),
    {
        if let ProcessorEvent::StoreFailed = event {
            if let ProcessorState::Halted { error } = self.state {
                return ProcessorAction::Halt { error };
            }
            let error = QueueError::StorageFailed;
            self.state = ProcessorState::Halted { error };
            return ProcessorAction::Halt { error };
        }
        match self.state {
            ProcessorState::Halted { error } => ProcessorAction::Halt { error },
            ProcessorState::Idle => match event {
                ProcessorEvent::Wake { now } => match queue.next_pending() {
                    None => ProcessorAction::Sleep,
                    Some(id) => {
                        self.state = ProcessorState::Applying { update_id: id, started_at: now };
                        ProcessorAction::Apply { update_id: id }
                    },
                },
                _ => {
                    let error = QueueError::NothingInProgress;
                    self.state = ProcessorState::Halted { error };
                    ProcessorAction::Halt { error }
                },
            },
            ProcessorState::Applying { update_id, started_at } => match event {
                ProcessorEvent::Applied { result, now } => {
                    let outcome = outcome_for(result, started_at, now);
                    match queue.record_outcome(update_id, outcome) {
                        Ok(()) => {
                            self.state = ProcessorState::Idle;
                            ProcessorAction::Recorded { update_id }
                        },
                        Err(error) => {
                            self.state = ProcessorState::Halted { error };
                            ProcessorAction::Halt { error }
                        },
                    }
                },
                _ => ProcessorAction::Sleep,
            },
        }
    }
}

} // verus!
