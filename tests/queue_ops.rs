use serde_json::Value;
use update_queue::{
    ApplierError, Outcome, QueueError, Timestamp, Update, UpdateData, UpdateQueue, UpdateRecord,
    UpdateStatus, UpdateType,
};

fn at(seconds: i64, nanosecond: u32) -> Timestamp {
    Timestamp::new(seconds, nanosecond).unwrap()
}

fn docs(n: usize) -> Vec<serde_json::Map<String, Value>> {
    (0..n).map(|_| serde_json::Map::new()).collect()
}

fn enqueued_record(id: u64, data: UpdateData, t: Timestamp) -> UpdateRecord {
    let update_type = data.update_type();
    UpdateRecord {
        update: Update { data, enqueued_at: t },
        status: UpdateStatus::Enqueued {
            content: update_queue::EnqueuedUpdateResult { update_id: id, update_type, enqueued_at: t },
        },
    }
}

#[test]
fn summaries_count_documents_and_ids() {
    let add = UpdateData::DocumentsAddition { primary_key: None, documents: docs(4) };
    assert!(matches!(add.update_type(), UpdateType::DocumentsAddition { number: 4 }));
    let partial = UpdateData::DocumentsPartial { primary_key: Some("k".to_string()), documents: docs(2) };
    assert!(matches!(partial.update_type(), UpdateType::DocumentsPartial { number: 2 }));
    let empty = UpdateData::DocumentsPartial { primary_key: None, documents: docs(0) };
    assert!(matches!(empty.update_type(), UpdateType::DocumentsPartial { number: 0 }));
    let del = UpdateData::DocumentsDeletion(vec!["x".to_string()]);
    assert!(matches!(del.update_type(), UpdateType::DocumentsDeletion { number: 1 }));
    assert!(matches!(UpdateData::ClearAll.update_type(), UpdateType::ClearAll));
    assert!(matches!(UpdateData::Customs(vec![1, 2]).update_type(), UpdateType::Customs));
}

#[test]
fn enqueue_stamps_a_valid_time() {
    let mut queue = UpdateQueue::new();
    let e = queue.enqueue(UpdateData::ClearAll).unwrap();
    assert!(e.enqueued_at.nanosecond < 1_000_000_000);
    assert!(e.enqueued_at.seconds > 1_500_000_000);
    let status = queue.get_status(1).unwrap();
    assert_eq!(*status.enqueued_at(), e.enqueued_at);
    assert_eq!(queue.get_update(1).unwrap().enqueued_at, e.enqueued_at);
}

#[test]
fn unknown_ids_are_not_found() {
    let mut queue = UpdateQueue::new();
    assert!(queue.get_status(0).is_none());
    assert!(queue.get_status(1).is_none());
    assert!(queue.get_update(1).is_none());
    let outcome = Outcome::Processed { duration_nanos: 0, processed_at: at(0, 0) };
    assert_eq!(queue.record_outcome(1, outcome), Err(QueueError::NotFound));
    assert_eq!(queue.next_pending(), None);
}

#[test]
fn second_outcome_is_an_invalid_transition() {
    let mut queue = UpdateQueue::new();
    queue.enqueue_at(UpdateData::ClearAll, at(5, 0)).unwrap();
    let failed = Outcome::Failed {
        error: ApplierError {
            message: "bad document".to_string(),
            error_type: Some("invalid_request".to_string()),
            error_code: Some("invalid_document".to_string()),
            error_link: Some("https://docs.example/errors#invalid_document".to_string()),
        },
        duration_nanos: 7,
        processed_at: at(6, 0),
    };
    assert_eq!(queue.record_outcome(1, failed), Ok(()));
    match queue.get_status(1) {
        Some(UpdateStatus::Failed { content }) => {
            assert_eq!(content.error.as_deref(), Some("bad document"));
            assert_eq!(content.error_type.as_deref(), Some("invalid_request"));
            assert_eq!(content.error_code.as_deref(), Some("invalid_document"));
            assert_eq!(content.duration_nanos, 7);
            assert_eq!(content.enqueued_at, at(5, 0));
        }
        other => panic!("unexpected status {:?}", other),
    }
    let again = Outcome::Processed { duration_nanos: 1, processed_at: at(7, 0) };
    assert_eq!(queue.record_outcome(1, again), Err(QueueError::InvalidTransition));
    assert!(matches!(queue.get_status(1), Some(UpdateStatus::Failed { .. })));
}

#[test]
fn next_pending_is_the_lowest_waiting_and_only_peeks() {
    let mut queue = UpdateQueue::new();
    for i in 0..3 {
        queue.enqueue_at(UpdateData::ClearAll, at(i, 0)).unwrap();
    }
    assert_eq!(queue.next_pending(), Some(1));
    assert_eq!(queue.next_pending(), Some(1));
    let done = Outcome::Processed { duration_nanos: 0, processed_at: at(9, 0) };
    queue.record_outcome(2, done).unwrap();
    assert_eq!(queue.next_pending(), Some(1));
    let done = Outcome::Processed { duration_nanos: 0, processed_at: at(9, 0) };
    queue.record_outcome(1, done).unwrap();
    assert_eq!(queue.next_pending(), Some(3));
}

#[test]
fn repeated_status_queries_agree() {
    let mut queue = UpdateQueue::new();
    queue.enqueue_at(UpdateData::DocumentsDeletion(vec!["a".to_string()]), at(3, 4)).unwrap();
    let first = format!("{:?}", queue.get_status(1));
    let second = format!("{:?}", queue.get_status(1));
    assert_eq!(first, second);
    assert_eq!(format!("{:?}", queue.get_status(2)), format!("{:?}", queue.get_status(2)));
}

#[test]
fn listing_is_ordered_and_clipped() {
    let mut queue = UpdateQueue::new();
    for i in 0..5 {
        queue.enqueue_at(UpdateData::ClearAll, at(i, 0)).unwrap();
    }
    let ids: Vec<u64> = queue.list_statuses(0, u64::MAX).iter().map(|s| s.update_id()).collect();
    assert_eq!(ids, vec![1, 2, 3, 4, 5]);
    let ids: Vec<u64> = queue.list_statuses(2, 4).iter().map(|s| s.update_id()).collect();
    assert_eq!(ids, vec![2, 3, 4]);
    let ids: Vec<u64> = queue.list_statuses(4, 9).iter().map(|s| s.update_id()).collect();
    assert_eq!(ids, vec![4, 5]);
    assert!(queue.list_statuses(6, 9).is_empty());
    assert!(queue.list_statuses(3, 2).is_empty());
}

#[test]
fn restart_after_enqueue_keeps_the_record_and_the_counter() {
    let mut queue = UpdateQueue::new();
    queue.enqueue_at(UpdateData::ClearAll, at(1, 0)).unwrap();
    queue.enqueue_at(UpdateData::Customs(vec![9]), at(2, 0)).unwrap();
    // what storage holds after the crash
    let stored = vec![
        enqueued_record(1, UpdateData::ClearAll, at(1, 0)),
        enqueued_record(2, UpdateData::Customs(vec![9]), at(2, 0)),
    ];
    let mut restarted = UpdateQueue::recover(stored).unwrap();
    assert_eq!(restarted.len(), queue.len());
    assert!(matches!(restarted.get_status(2), Some(UpdateStatus::Enqueued { .. })));
    assert_eq!(restarted.next_pending(), Some(1));
    let next = restarted.enqueue_at(UpdateData::ClearAll, at(3, 0)).unwrap();
    assert_eq!(next.update_id, 3);
    assert_eq!(restarted.records().len(), 3);
}

#[test]
fn recovery_rejects_a_gap() {
    let stored = vec![
        enqueued_record(1, UpdateData::ClearAll, at(1, 0)),
        enqueued_record(3, UpdateData::ClearAll, at(2, 0)),
    ];
    assert!(matches!(
        UpdateQueue::recover(stored),
        Err(QueueError::CorruptRecord { position: 1 })
    ));
}

#[test]
fn recovery_rejects_a_mismatched_time() {
    let mut rec = enqueued_record(1, UpdateData::ClearAll, at(1, 0));
    rec.update.enqueued_at = at(2, 0);
    assert!(matches!(
        UpdateQueue::recover(vec![rec]),
        Err(QueueError::CorruptRecord { position: 0 })
    ));
}

#[test]
fn recovery_of_nothing_is_an_empty_queue() {
    let mut queue = UpdateQueue::recover(Vec::new()).unwrap();
    assert_eq!(queue.len(), 0);
    assert_eq!(queue.enqueue_at(UpdateData::ClearAll, at(0, 0)).unwrap().update_id, 1);
}

#[test]
fn timestamps_reject_a_full_second_of_nanos() {
    assert!(Timestamp::new(0, 1_000_000_000).is_none());
    assert_eq!(Timestamp::new(-5, 999_999_999), Some(Timestamp { seconds: -5, nanosecond: 999_999_999 }));
}

#[test]
fn elapsed_time_in_nanos() {
    assert_eq!(update_queue::elapsed(at(1, 500), at(3, 100)), 1_999_999_600);
    assert_eq!(update_queue::elapsed(at(-1, 0), at(1, 0)), 2_000_000_000);
    assert_eq!(update_queue::elapsed(at(5, 0), at(4, 0)), 0);
    assert_eq!(update_queue::elapsed(at(i64::MIN, 0), at(i64::MAX, 999_999_999)), 18_446_744_073_709_551_615_999_999_999);
}
