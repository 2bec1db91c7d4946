use vstd::prelude::*;

use crate::clock::Timestamp;
use crate::mutation::UpdateType;

verus! {

/// The status of a mutation that waits to be applied.
#[derive(Debug)]
pub struct EnqueuedUpdateResult {
    pub update_id: u64,
    pub update_type: UpdateType,
    pub enqueued_at: Timestamp,
}

/// The status of a mutation that was applied, or whose application failed.
#[derive(Debug)]
pub struct ProcessedUpdateResult {
    pub update_id: u64,
    pub update_type: UpdateType,
    pub error: Option<String>,
    pub error_type: Option<String>,
    pub error_code: Option<String>,
    pub error_link: Option<String>,
    /// How long the application took, in nanoseconds.
    pub duration_nanos: u128,
    pub enqueued_at: Timestamp,
    pub processed_at: Timestamp,
}

/// Where a mutation stands in its lifecycle.
#[allow(inconsistent_fields)]
#[derive(Debug)]
pub enum UpdateStatus {
    Enqueued { content: EnqueuedUpdateResult },
    Failed { content: ProcessedUpdateResult },
    Processed { content: ProcessedUpdateResult },
}

/// A failure that the index applier reported for one mutation.
#[derive(Debug)]
pub struct ApplierError {
    pub message: String,
    pub error_type: Option<String>,
    pub error_code: Option<String>,
    pub error_link: Option<String>,
}

/// How the application of one mutation ended, as the processor records it.
#[derive(Debug)]
pub enum Outcome {
    Processed { duration_nanos: u128, processed_at: Timestamp },
    Failed { error: ApplierError, duration_nanos: u128, processed_at: Timestamp },
}

impl UpdateStatus {
    /// The status is final: the mutation was applied or failed.
    pub open spec fn is_terminal(&self) -> bool {
        !(self is Enqueued)
    }

    /// The identifier that the status belongs to.
    pub open spec fn id(&self) -> u64 {
        match self {
            UpdateStatus::Enqueued { content } => content.update_id,
            UpdateStatus::Failed { content } => content.update_id,
            UpdateStatus::Processed { content } => content.update_id,
        }
    }

    /// The instant its mutation was enqueued.
    pub open spec fn enqueued_time(&self) -> Timestamp {
        match self {
            UpdateStatus::Enqueued { content } => content.enqueued_at,
            UpdateStatus::Failed { content } => content.enqueued_at,
            UpdateStatus::Processed { content } => content.enqueued_at,
        }
    }

    /// The summary of its mutation.
    pub open spec fn summary(&self) -> UpdateType {
        match self {
            UpdateStatus::Enqueued { content } => content.update_type,
            UpdateStatus::Failed { content } => content.update_type,
            UpdateStatus::Processed { content } => content.update_type,
        }
    }

    /// The instant at which the mutation was enqueued.
    pub fn enqueued_at(&self) -> (r: &Timestamp)
        ensures
            *r == self.enqueued_time(),
    {
        match self {
            UpdateStatus::Enqueued { content } => &content.enqueued_at,
            UpdateStatus::Failed { content } => &content.enqueued_at,
            UpdateStatus::Processed { content } => &content.enqueued_at,
        }
    }

    /// The identifier of the mutation.
    pub fn update_id(&self) -> (r: u64)
        ensures
            r == self.id(),
    {
        match self {
            UpdateStatus::Enqueued { content } => content.update_id,
            UpdateStatus::Failed { content } => content.update_id,
            UpdateStatus::Processed { content } => content.update_id,
        }
    }

    /// Whether the status is final.
    pub fn is_finished(&self) -> (r: bool)
        ensures
            r == self.is_terminal(),
    {
        !matches!(self, UpdateStatus::Enqueued { .. })
    }
}

/// The final status that `outcome` gives to the waiting mutation `waiting`.
pub open spec fn finished_status(waiting: EnqueuedUpdateResult, outcome: Outcome) -> UpdateStatus {
    match outcome {
        Outcome::Processed { duration_nanos, processed_at } => UpdateStatus::Processed {
            content: ProcessedUpdateResult {
                update_id: waiting.update_id,
                update_type: waiting.update_type,
                error: None,
                error_type: None,
                error_code: None,
                error_link: None,
                duration_nanos,
                enqueued_at: waiting.enqueued_at,
                processed_at,
            },
        },
        Outcome::Failed { error, duration_nanos, processed_at } => UpdateStatus::Failed {
            content: ProcessedUpdateResult {
                update_id: waiting.update_id,
                update_type: waiting.update_type,
                error: Some(error.message),
                error_type: error.error_type,
                error_code: error.error_code,
                error_link: error.error_link,
                duration_nanos,
                enqueued_at: waiting.enqueued_at,
                processed_at,
            },
        },
    }
}

/// Closes the lifecycle of a waiting mutation: it keeps its identifier,
/// summary and enqueue time, and takes the outcome's timing and error.
pub fn finish(waiting: EnqueuedUpdateResult, outcome: Outcome) -> (r: UpdateStatus)
    ensures
        r == finished_status(waiting, outcome),
{
    match outcome {
        Outcome::Processed { duration_nanos, processed_at } => UpdateStatus::Processed {
            content: ProcessedUpdateResult {
                update_id: waiting.update_id,
                update_type: waiting.update_type,
                error: None,
                error_type: None,
                error_code: None,
                error_link: None,
                duration_nanos,
                enqueued_at: waiting.enqueued_at,
                processed_at,
            },
        },
        Outcome::Failed { error, duration_nanos, processed_at } => UpdateStatus::Failed {
            content: ProcessedUpdateResult {
                update_id: waiting.update_id,
                update_type: waiting.update_type,
                error: Some(error.message),
                error_type: error.error_type,
                error_code: error.error_code,
                error_link: error.error_link,
                duration_nanos,
                enqueued_at: waiting.enqueued_at,
                processed_at,
            },
        },
    }
}

/// A status may move from `before` to `after`: it stays as it is, or a
/// waiting status becomes final while keeping its identifier, summary and
/// enqueue time.
pub open spec fn legal_transition(before: UpdateStatus, after: UpdateStatus) -> bool {
    before == after || (before is Enqueued && after.is_terminal() && after.id() == before.id()
        && after.summary() == before.summary() && after.enqueued_time()
        == before.enqueued_time())
}

/// Observed over time, a status never leaves a final state and never returns
/// to waiting: legal moves compose into a legal move, and a final status stays
/// exactly as it was.
pub proof fn lemma_transitions_compose(a: UpdateStatus, b: UpdateStatus, c: UpdateStatus)
    requires
        legal_transition(a, b),
        legal_transition(b, c),
    ensures
        legal_transition(a, c),
        a.is_terminal() ==> c == a,
        c is Enqueued ==> a == c,
{
}

/// A finished status is a legal move from the waiting one it closes.
pub proof fn lemma_finish_is_legal(waiting: EnqueuedUpdateResult, outcome: Outcome)
    ensures
        legal_transition(UpdateStatus::Enqueued { content: waiting }, finished_status(waiting, outcome)),
        finished_status(waiting, outcome).is_terminal(),
{
}

} // verus!
