use gitlab_project_doctor::remedy::{BatchStep, DeleteOutcome, DeletionBatch, INSUFFICIENT_PRIVILEGES};

#[test]
fn retry_then_success_deletes_item() {
    let mut batch = DeletionBatch::new(2);
    assert_eq!(batch.next_step(), BatchStep::Delete(0));
    batch.record(DeleteOutcome::Transport("reset".to_string()));
    assert_eq!(batch.next_step(), BatchStep::Delete(0));
    batch.record(DeleteOutcome::Transport("timeout".to_string()));
    assert_eq!(batch.next_step(), BatchStep::Delete(0));
    batch.record(DeleteOutcome::Deleted);
    assert_eq!(batch.deleted, 1);
    assert!(batch.failure.is_none());
    assert_eq!(batch.next_step(), BatchStep::Delete(1));
    batch.record(DeleteOutcome::Deleted);
    assert_eq!(batch.next_step(), BatchStep::Done);
    assert_eq!(batch.settled(), 2);
}

#[test]
fn three_transport_failures_abort_and_keep_prior_successes() {
    let mut batch = DeletionBatch::new(3);
    batch.record(DeleteOutcome::Deleted);
    batch.record(DeleteOutcome::Transport("a".to_string()));
    batch.record(DeleteOutcome::Transport("b".to_string()));
    batch.record(DeleteOutcome::Transport("c".to_string()));
    assert_eq!(batch.deleted, 1);
    assert_eq!(batch.next_step(), BatchStep::Aborted { index: 1, message: "c".to_string() });
    assert_eq!(batch.settled(), 2);
}

#[test]
fn scope_error_is_fatal_with_explanation() {
    let mut batch = DeletionBatch::new(2);
    batch.record(DeleteOutcome::Transport("flaky".to_string()));
    batch.record(DeleteOutcome::Remote("403 Forbidden - insufficient_scope".to_string()));
    assert_eq!(
        batch.next_step(),
        BatchStep::Aborted { index: 0, message: INSUFFICIENT_PRIVILEGES.to_string() }
    );
    assert_eq!(batch.deleted, 0);
}

#[test]
fn other_remote_error_is_surfaced_verbatim() {
    let mut batch = DeletionBatch::new(1);
    batch.record(DeleteOutcome::Remote("404 Not Found".to_string()));
    assert_eq!(batch.next_step(), BatchStep::Aborted { index: 0, message: "404 Not Found".to_string() });
}

#[test]
fn other_error_is_fatal_at_once() {
    let mut batch = DeletionBatch::new(1);
    batch.record(DeleteOutcome::Other("bad".to_string()));
    assert_eq!(batch.next_step(), BatchStep::Aborted { index: 0, message: "bad".to_string() });
}

#[test]
fn empty_batch_is_done() {
    let batch = DeletionBatch::new(0);
    assert_eq!(batch.next_step(), BatchStep::Done);
    assert_eq!(batch.settled(), 0);
}
