use vstd::prelude::*;
use crate::order::Dated;
use crate::remedy::DeletionBatch;
use crate::report::{copy_statuses, ReportStatus, Reportable};
use crate::text::{decimal, join_text, u64_text};

verus! {

/// Seconds in a day.
pub const SECONDS_PER_DAY: u64 = 86_400;

/// Notice given when every pipeline is old enough and the oldest one is
/// kept, as the only one left.
pub const OLDEST_PIPELINE_KEPT: &'static str =
    "Every pipeline was old enough: the oldest one was kept, so that the project keeps one pipeline record";

/// A CI pipeline. `created_at` is in seconds since the epoch.
#[derive(Clone, Copy, Debug, PartialEq, Eq, Structural)]
pub struct GitlabPipeline {
    pub id: u64,
    pub created_at: i64,
}

impl Dated for GitlabPipeline {
    open spec fn created(&self) -> int {
        self.created_at as int
    }

    fn created_at(&self) -> (r: i64) {
        self.created_at
    }
}

/// The instant `days` days before `now`, both in seconds since the epoch,
/// or the earliest representable instant when that lies before it.
pub open spec fn cutoff_of(now: i64, days: u64) -> int {
    let c = now - days * SECONDS_PER_DAY;
    if c < i64::MIN { i64::MIN as int } else { c }
}

/// Length of the leading run of pipelines created at or before the cutoff.
pub open spec fn old_prefix_len(pipelines: Seq<GitlabPipeline>, cutoff: int) -> nat
    decreases pipelines.len(),
{
    if pipelines.len() == 0 {
        0
    } else if pipelines[0].created_at > cutoff {
        0
    } else {
        1 + old_prefix_len(pipelines.drop_first(), cutoff)
    }
}

/// The pipelines, sorted oldest first, that may be deleted: the leading run
/// of pipelines old enough, without the oldest one.
pub open spec fn deletable_pipelines(pipelines: Seq<GitlabPipeline>, cutoff: int) -> Seq<GitlabPipeline> {
    let k = old_prefix_len(pipelines, cutoff);
    if k == 0 {
        Seq::empty()
    } else {
        pipelines.subrange(1, k as int)
    }
}

/// The cutoff instant `days` days before `now`.
pub fn cutoff_time(now: i64, days: u64) -> (r: i64)
    ensures
        r as int == cutoff_of(now, days),
{
    assert((days as int) * (SECONDS_PER_DAY as int) <= u64::MAX as int * 86_400) by (nonlinear_arith)
        requires days <= u64::MAX;
    let span: i128 = (days as i128) * (SECONDS_PER_DAY as i128);
    let c: i128 = (now as i128) - span;
    if c < (i64::MIN as i128) {
        i64::MIN
    } else {
        c as i64
    }
}

/// Relies on `chrono::Local::now` and `DateTime::timestamp`: the present
/// instant in seconds since the epoch. Nothing is promised of its value.
#[verifier::external_body]
fn now_timestamp() -> (r: i64) {
    chrono::Local::now().timestamp()
}

/// The cutoff instant `days` days before the present.
pub fn cutoff_from_now(days: u64) -> (r: i64)
    ensures
        exists|now: i64| r as int == cutoff_of(now, days),
{
    let now = now_timestamp();
    cutoff_time(now, days)
}

proof fn lemma_old_prefix_step(pipelines: Seq<GitlabPipeline>, cutoff: int, i: int)
    requires
        0 <= i < pipelines.len(),
    ensures
        old_prefix_len(pipelines.subrange(i, pipelines.len() as int), cutoff) == if pipelines[i].created_at > cutoff {
            0
        } else {
            1 + old_prefix_len(pipelines.subrange(i + 1, pipelines.len() as int), cutoff)
        },
{
    let s = pipelines.subrange(i, pipelines.len() as int);
    assert(s.drop_first() =~= pipelines.subrange(i + 1, pipelines.len() as int));
    assert(s[0] == pipelines[i]);
}

/// The number of pipelines, sorted oldest first, in the leading run of
/// pipelines created at or before `ref_date`.
pub fn count_old_pipelines(pipelines: &[GitlabPipeline], ref_date: i64) -> (r: usize)
    ensures
        r == old_prefix_len(pipelines@, ref_date as int),
        r <= pipelines@.len(),
        forall|i: int| 0 <= i < r ==> pipelines@[i].created_at <= ref_date,
        r < pipelines@.len() ==> pipelines@[r as int].created_at > ref_date,
{
    let n = pipelines.len();
    let mut i: usize = 0;
    assert(pipelines@.subrange(0, n as int) == pipelines@);
    while i < n
        invariant
            n == pipelines@.len(),
            i <= n,
            forall|j: int| 0 <= j < i ==> pipelines@[j].created_at <= ref_date,
            old_prefix_len(pipelines@, ref_date as int) == i + old_prefix_len(
                pipelines@.subrange(i as int, n as int),
                ref_date as int,
            ),
        decreases n - i,
    {
        proof {
            lemma_old_prefix_step(pipelines@, ref_date as int, i as int);
        }
        if pipelines[i].created_at > ref_date {
            return i;
        }
        i = i + 1;
    }
    assert(pipelines@.subrange(n as int, n as int).len() == 0);
    i
}

/// Which pipelines a cleanup deletes.
pub struct PipelineSelection {
    /// The pipelines to delete, oldest first.
    pub deletable: Vec<GitlabPipeline>,
    /// Every pipeline was old enough, and the oldest one is kept so that
    /// the project keeps one pipeline record.
    pub oldest_kept: bool,
}

/// The pipelines, sorted oldest first, that a cleanup with cutoff
/// `ref_date` deletes: the leading run created at or before the cutoff,
/// stopping at the first newer one, and never the oldest pipeline.
pub fn select_deletable_pipelines(pipelines: &[GitlabPipeline], ref_date: i64) -> (r: PipelineSelection)
    ensures
        r.deletable@ == deletable_pipelines(pipelines@, ref_date as int),
        r.oldest_kept == (pipelines@.len() > 0 && old_prefix_len(pipelines@, ref_date as int) == pipelines@.len()),
{
    let k = count_old_pipelines(pipelines, ref_date);
    proof {
        lemma_old_prefix_bound(pipelines@, ref_date as int);
    }
    let mut deletable: Vec<GitlabPipeline> = Vec::new();
    if k == 0 {
        return PipelineSelection { deletable, oldest_kept: false };
    }
    let mut i: usize = 1;
    while i < k
        invariant
            1 <= i <= k <= pipelines@.len(),
            deletable@ == pipelines@.subrange(1, i as int),
        decreases k - i,
    {
        deletable.push(pipelines[i]);
        assert(deletable@ =~= pipelines@.subrange(1, i + 1));
        i = i + 1;
    }
    PipelineSelection { deletable, oldest_kept: k == pipelines.len() }
}

/// When every pipeline is older than the cutoff, all are deletable but the
/// oldest one, which is kept.
pub proof fn lemma_oldest_pipeline_retained(pipelines: Seq<GitlabPipeline>, cutoff: int)
    requires
        pipelines.len() > 0,
        forall|i: int| 0 <= i < pipelines.len() ==> pipelines[i].created_at <= cutoff,
    ensures
        deletable_pipelines(pipelines, cutoff) == pipelines.drop_first(),
        deletable_pipelines(pipelines, cutoff).len() == pipelines.len() - 1,
    decreases pipelines.len(),
{
    lemma_all_old_prefix(pipelines, cutoff);
    assert(pipelines.subrange(1, pipelines.len() as int) =~= pipelines.drop_first());
}

proof fn lemma_all_old_prefix(pipelines: Seq<GitlabPipeline>, cutoff: int)
    requires
        forall|i: int| 0 <= i < pipelines.len() ==> pipelines[i].created_at <= cutoff,
    ensures
        old_prefix_len(pipelines, cutoff) == pipelines.len(),
    decreases pipelines.len(),
{
    if pipelines.len() > 0 {
        let rest = pipelines.drop_first();
        assert forall|i: int| 0 <= i < rest.len() implies rest[i].created_at <= cutoff by {
            assert(rest[i] == pipelines[i + 1]);
        }
        lemma_all_old_prefix(rest, cutoff);
    }
}

/// Whatever the pipelines and the cutoff, a cleanup leaves at least one
/// pipeline, and deletes only pipelines old enough.
pub proof fn lemma_one_pipeline_always_left(pipelines: Seq<GitlabPipeline>, cutoff: int)
    requires
        pipelines.len() > 0,
    ensures
        deletable_pipelines(pipelines, cutoff).len() < pipelines.len(),
        forall|i: int| 0 <= i < deletable_pipelines(pipelines, cutoff).len() ==>
            #[trigger] deletable_pipelines(pipelines, cutoff)[i].created_at <= cutoff,
{
    lemma_old_prefix_bound(pipelines, cutoff);
    let k = old_prefix_len(pipelines, cutoff);
    assert forall|i: int| 0 <= i < deletable_pipelines(pipelines, cutoff).len() implies
        #[trigger] deletable_pipelines(pipelines, cutoff)[i].created_at <= cutoff by {
        assert(deletable_pipelines(pipelines, cutoff)[i] == pipelines[i + 1]);
    }
}

proof fn lemma_old_prefix_bound(pipelines: Seq<GitlabPipeline>, cutoff: int)
    ensures
        old_prefix_len(pipelines, cutoff) <= pipelines.len(),
        forall|i: int| 0 <= i < old_prefix_len(pipelines, cutoff) ==> pipelines[i].created_at <= cutoff,
    decreases pipelines.len(),
{
    if pipelines.len() > 0 && pipelines[0].created_at <= cutoff {
        let rest = pipelines.drop_first();
        lemma_old_prefix_bound(rest, cutoff);
        assert forall|i: int| 0 <= i < old_prefix_len(pipelines, cutoff) implies pipelines[i].created_at <= cutoff by {
            if i > 0 {
                assert(pipelines[i] == rest[i - 1]);
            }
        }
    }
}

/// Bytes freed by a cleanup, from the artifact storage figure before it and
/// the one read after it (`None` when that read failed, which counts as no
/// change). Never negative.
pub fn compute_saved_bytes(old_size: u64, new_size: Option<u64>) -> (r: u64)
    ensures
        r == match new_size {
            Some(n) => if n <= old_size { (old_size - n) as u64 } else { 0 },
            None => 0,
        },
{
    let n = match new_size {
        Some(n) => n,
        None => old_size,
    };
    if n <= old_size {
        old_size - n
    } else {
        0
    }
}

/// The outcome of a pipeline cleanup.
pub struct PipelineCleanReport {
    pub saved_bytes: u64,
    pub deleted_pipelines: Vec<GitlabPipeline>,
    pub report_status: Vec<ReportStatus>,
}

/// The message of a fatal error on a pipeline.
pub open spec fn pipeline_error_message(id: u64, msg: Seq<char>) -> Seq<char> {
    "Pipeline "@ + decimal(id as nat) + " - Error : "@ + msg
}

/// The error status of a fatal error on a pipeline.
pub fn pipeline_error_status(id: u64, msg: &str) -> (r: ReportStatus)
    ensures
        r is ERROR,
        r.message() == pipeline_error_message(id, msg@),
{
    let head = join_text("Pipeline ", u64_text(id).as_str());
    let head = join_text(head.as_str(), " - Error : ");
    ReportStatus::ERROR(join_text(head.as_str(), msg))
}

impl PipelineCleanReport {
    /// A report with no deletion and one fatal error on pipeline `id`.
    pub fn fatal_error(id: u64, msg: &str) -> (r: Self)
        ensures
            r.saved_bytes == 0,
            r.deleted_pipelines@.len() == 0,
            r.report_status@.len() == 1,
            r.report_status@[0] is ERROR,
            r.report_status@[0].message() == pipeline_error_message(id, msg@),
    {
        let mut report_status = Vec::new();
        report_status.push(pipeline_error_status(id, msg));
        PipelineCleanReport { saved_bytes: 0, deleted_pipelines: Vec::new(), report_status }
    }

    /// The report of a finished or stopped cleanup over `selection`: the
    /// pipelines deleted before the batch ended, the bytes freed, the
    /// summary line, then the fatal error if the batch stopped on one, then
    /// the notice that the oldest pipeline was kept when every pipeline was
    /// old enough.
    pub fn conclude(selection: PipelineSelection, batch: &DeletionBatch, saved_bytes: u64, summary: String) -> (r: Self)
        requires
            batch.wf(),
            batch.total == selection.deletable@.len(),
        ensures
            r.saved_bytes == saved_bytes,
            r.deleted_pipelines@ == selection.deletable@.subrange(0, batch.deleted as int),
            r.report_status@.len() == 1 + (if batch.failure is Some { 1int } else { 0 }) + (if selection.oldest_kept { 1int } else { 0 }),
            r.report_status@[0] == ReportStatus::OK(summary),
            batch.failure is Some ==> r.report_status@[1] is ERROR && r.report_status@[1].message()
                == pipeline_error_message(selection.deletable@[batch.deleted as int].id, batch.failure.unwrap()@),
            selection.oldest_kept ==> r.report_status@.last() is NA
                && r.report_status@.last().message() == OLDEST_PIPELINE_KEPT@,
    {
        let mut report_status = Vec::new();
        report_status.push(ReportStatus::OK(summary));
        match &batch.failure {
            Some(m) => {
                let id = selection.deletable[batch.deleted].id;
                report_status.push(pipeline_error_status(id, m.as_str()));
            },
            None => {},
        }
        if selection.oldest_kept {
            report_status.push(ReportStatus::NA(String::from_str(OLDEST_PIPELINE_KEPT)));
        }
        let mut deleted_pipelines = selection.deletable;
        deleted_pipelines.truncate(batch.deleted);
        PipelineCleanReport { saved_bytes, deleted_pipelines, report_status }
    }
}

impl Reportable for PipelineCleanReport {
    open spec fn statuses(&self) -> Seq<ReportStatus> {
        self.report_status@
    }

    fn report(&self) -> (r: Vec<ReportStatus>) {
        copy_statuses(&self.report_status)
    }
}

/// `{total} pipelines, {old} older than {days} days`.
pub open spec fn pipeline_report_text(total: nat, old: nat, days: nat) -> Seq<char> {
    decimal(total) + " pipelines, "@ + decimal(old) + " older than "@ + decimal(days) + " days"@
}

/// The status of a pipeline analysis: how many pipelines, and how many in
/// the leading run older than the cutoff.
pub fn pipeline_analysis_status(total: u64, old: u64, days: u64) -> (r: ReportStatus)
    ensures
        r is NA,
        r.message() == pipeline_report_text(total as nat, old as nat, days as nat),
{
    let m = join_text(u64_text(total).as_str(), " pipelines, ");
    let m = join_text(m.as_str(), u64_text(old).as_str());
    let m = join_text(m.as_str(), " older than ");
    let m = join_text(m.as_str(), u64_text(days).as_str());
    ReportStatus::NA(join_text(m.as_str(), " days"))
}

/// `{count} pipelines deleted ({human})`.
pub open spec fn pipeline_clean_text(count: nat, human: Seq<char>) -> Seq<char> {
    decimal(count) + " pipelines deleted ("@ + human + ")"@
}

/// The summary line of a pipeline cleanup, `human` being the readable
/// amount of bytes freed.
pub fn pipeline_clean_summary(count: u64, human: &str) -> (r: String)
    ensures
        r@ == pipeline_clean_text(count as nat, human@),
{
    let m = join_text(u64_text(count).as_str(), " pipelines deleted (");
    let m = join_text(m.as_str(), human);
    join_text(m.as_str(), ")")
}

} // verus!
