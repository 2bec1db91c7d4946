//! The update-processing core of a document index: the mutation model, the
//! lifecycle of each mutation's status, the ordered update queue and the
//! single-writer processor that drives it.

pub mod clock;
pub mod mutation;
pub mod processor;
pub mod queue;
pub mod status;

pub use clock::{elapsed, Timestamp};
pub use mutation::{SettingsUpdate, Update, UpdateData, UpdateType};
pub use status::{ApplierError, EnqueuedUpdateResult, Outcome, ProcessedUpdateResult, UpdateStatus};
pub use queue::{QueueError, UpdateQueue, UpdateRecord};
pub use processor::{Processor, ProcessorAction, ProcessorEvent, ProcessorState};
