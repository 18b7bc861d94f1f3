use gitlab_project_doctor::order::sort_by_age;
use gitlab_project_doctor::pipelines::{
    compute_saved_bytes, count_old_pipelines, cutoff_from_now, cutoff_time, select_deletable_pipelines,
    GitlabPipeline, PipelineCleanReport, PipelineSelection, OLDEST_PIPELINE_KEPT,
};
use gitlab_project_doctor::remedy::{DeleteOutcome, DeletionBatch};
use gitlab_project_doctor::report::{ReportStatus, Reportable};

fn p(id: u64, created_at: i64) -> GitlabPipeline {
    GitlabPipeline { id, created_at }
}

#[test]
fn all_old_pipelines_keep_the_oldest() {
    let pipelines = vec![p(1, 10), p(2, 20), p(3, 30)];
    let selection = select_deletable_pipelines(&pipelines, 100);
    assert_eq!(selection.deletable, vec![p(2, 20), p(3, 30)]);
    assert!(selection.oldest_kept);
}

#[test]
fn selection_stops_at_first_recent_pipeline() {
    let pipelines = vec![p(1, 10), p(2, 20), p(3, 200), p(4, 30)];
    let selection = select_deletable_pipelines(&pipelines, 100);
    assert_eq!(selection.deletable, vec![p(2, 20)]);
    assert!(!selection.oldest_kept);
    assert_eq!(count_old_pipelines(&pipelines, 100), 2);
}

#[test]
fn selection_of_recent_pipelines_is_empty() {
    let pipelines = vec![p(1, 200), p(2, 300)];
    let selection = select_deletable_pipelines(&pipelines, 100);
    assert!(selection.deletable.is_empty());
    assert!(!selection.oldest_kept);
    assert_eq!(count_old_pipelines(&pipelines, 100), 0);
}

#[test]
fn selection_cutoff_is_inclusive() {
    let pipelines = vec![p(1, 100), p(2, 100), p(3, 101)];
    assert_eq!(select_deletable_pipelines(&pipelines, 100).deletable, vec![p(2, 100)]);
}

#[test]
fn selection_of_no_pipeline() {
    let selection = select_deletable_pipelines(&[], 100);
    assert!(selection.deletable.is_empty());
    assert!(!selection.oldest_kept);
}

#[test]
fn saved_bytes_when_read_fails_is_zero() {
    assert_eq!(compute_saved_bytes(1000, None), 0);
}

#[test]
fn saved_bytes_is_difference_and_never_negative() {
    assert_eq!(compute_saved_bytes(1000, Some(400)), 600);
    assert_eq!(compute_saved_bytes(1000, Some(1500)), 0);
}

#[test]
fn cutoff_is_days_before_now() {
    assert_eq!(cutoff_time(1_000_000, 2), 1_000_000 - 2 * 86_400);
    assert_eq!(cutoff_time(i64::MIN + 5, 1), i64::MIN);
    assert_eq!(cutoff_time(0, u64::MAX), i64::MIN);
}

#[test]
fn cutoff_from_now_is_in_the_past() {
    let now = chrono::Local::now().timestamp();
    let c = cutoff_from_now(1);
    assert!(c <= now - 86_400 + 5);
    assert!(c >= now - 86_400 - 5);
}

#[test]
fn pipelines_sort_oldest_first() {
    let sorted = sort_by_age(vec![p(1, 30), p(2, 10), p(3, 20), p(4, 10)], false);
    let ids: Vec<u64> = sorted.iter().map(|x| x.id).collect();
    assert_eq!(ids, vec![2, 4, 3, 1]);
    let newest = sort_by_age(vec![p(1, 30), p(2, 10), p(3, 20)], true);
    let ids: Vec<u64> = newest.iter().map(|x| x.id).collect();
    assert_eq!(ids, vec![1, 3, 2]);
}

#[test]
fn pipeline_fatal_error_message() {
    let report = PipelineCleanReport::fatal_error(77, "nope");
    assert_eq!(report.report_status, vec![ReportStatus::ERROR("Pipeline 77 - Error : nope".to_string())]);
}

#[test]
fn pipeline_clean_report_after_abort() {
    let selection = PipelineSelection { deletable: vec![p(2, 20), p(3, 30), p(4, 40)], oldest_kept: true };
    let mut batch = DeletionBatch::new(3);
    batch.record(DeleteOutcome::Deleted);
    for m in ["x", "y", "z"] {
        batch.record(DeleteOutcome::Transport(m.to_string()));
    }
    let report = PipelineCleanReport::conclude(selection, &batch, 250, "1 pipeline deleted".to_string());
    assert_eq!(report.deleted_pipelines, vec![p(2, 20)]);
    assert_eq!(report.saved_bytes, 250);
    assert_eq!(
        report.report_status,
        vec![
            ReportStatus::OK("1 pipeline deleted".to_string()),
            ReportStatus::ERROR("Pipeline 3 - Error : z".to_string()),
            ReportStatus::NA(OLDEST_PIPELINE_KEPT.to_string()),
        ]
    );
}

#[test]
fn no_notice_when_a_newer_pipeline_remains() {
    let pipelines = vec![p(1, 10), p(2, 200)];
    let selection = select_deletable_pipelines(&pipelines, 100);
    assert!(selection.deletable.is_empty());
    assert!(!selection.oldest_kept);
    let batch = DeletionBatch::new(0);
    let report = PipelineCleanReport::conclude(selection, &batch, 0, "0 pipelines deleted".to_string());
    assert_eq!(report.report(), vec![ReportStatus::OK("0 pipelines deleted".to_string())]);
}

#[test]
fn notice_when_every_pipeline_is_old() {
    let selection = select_deletable_pipelines(&[p(1, 10)], 100);
    assert!(selection.deletable.is_empty());
    assert!(selection.oldest_kept);
    let report = PipelineCleanReport::conclude(selection, &DeletionBatch::new(0), 0, "s".to_string());
    assert_eq!(
        report.report(),
        vec![ReportStatus::OK("s".to_string()), ReportStatus::NA(OLDEST_PIPELINE_KEPT.to_string())]
    );
}
