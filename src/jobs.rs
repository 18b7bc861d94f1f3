use vstd::prelude::*;
use crate::report::{cap_u64, ReportStatus};
use crate::text::{decimal, join_text, u64_text};

verus! {

/// An artifact of a CI job.
#[derive(Clone, Copy, Debug, PartialEq, Eq, Structural)]
pub struct Artifact {
    pub size: u64,
}

/// A CI job. `created_at` is in seconds since the epoch.
#[derive(Clone, Debug)]
pub struct GitlabJob {
    pub created_at: i64,
    pub artifacts: Vec<Artifact>,
}

/// Total size of a list of artifacts.
pub open spec fn artifacts_size(artifacts: Seq<Artifact>) -> int
    decreases artifacts.len(),
{
    if artifacts.len() == 0 {
        0
    } else {
        artifacts_size(artifacts.drop_last()) + artifacts.last().size
    }
}

/// Number of jobs created at or before the cutoff.
pub open spec fn old_job_count(jobs: Seq<GitlabJob>, cutoff: int) -> int
    decreases jobs.len(),
{
    if jobs.len() == 0 {
        0
    } else {
        old_job_count(jobs.drop_last(), cutoff) + if jobs.last().created_at <= cutoff { 1int } else { 0 }
    }
}

/// Total artifact size of the jobs created at or before the cutoff.
pub open spec fn old_job_size(jobs: Seq<GitlabJob>, cutoff: int) -> int
    decreases jobs.len(),
{
    if jobs.len() == 0 {
        0
    } else {
        old_job_size(jobs.drop_last(), cutoff) + if jobs.last().created_at <= cutoff {
            artifacts_size(jobs.last().artifacts@)
        } else {
            0
        }
    }
}

proof fn lemma_old_job_count_bound(jobs: Seq<GitlabJob>, cutoff: int)
    ensures
        0 <= old_job_count(jobs, cutoff) <= jobs.len(),
    decreases jobs.len(),
{
    if jobs.len() > 0 {
        lemma_old_job_count_bound(jobs.drop_last(), cutoff);
    }
}

proof fn lemma_sizes_nonneg(jobs: Seq<GitlabJob>, cutoff: int)
    ensures
        old_job_size(jobs, cutoff) >= 0,
    decreases jobs.len(),
{
    if jobs.len() > 0 {
        lemma_sizes_nonneg(jobs.drop_last(), cutoff);
        lemma_artifacts_nonneg(jobs.last().artifacts@);
    }
}

proof fn lemma_artifacts_nonneg(artifacts: Seq<Artifact>)
    ensures
        artifacts_size(artifacts) >= 0,
    decreases artifacts.len(),
{
    if artifacts.len() > 0 {
        lemma_artifacts_nonneg(artifacts.drop_last());
    }
}

/// The number of jobs created at or before `ref_date`, and their total
/// artifact size, saturated at the largest `u64`.
pub fn number_jobs(jobs: &[GitlabJob], ref_date: i64) -> (r: (usize, u64))
    ensures
        r.0 == old_job_count(jobs@, ref_date as int),
        r.1 == cap_u64(old_job_size(jobs@, ref_date as int)),
{
    let mut old_count: usize = 0;
    let mut old_size: u64 = 0;
    let mut i: usize = 0;
    while i < jobs.len()
        invariant
            i <= jobs@.len(),
            old_count == old_job_count(jobs@.subrange(0, i as int), ref_date as int),
            old_size == cap_u64(old_job_size(jobs@.subrange(0, i as int), ref_date as int)),
        decreases jobs@.len() - i,
    {
        let ghost prefix = jobs@.subrange(0, i + 1);
        assert(prefix.drop_last() == jobs@.subrange(0, i as int));
        proof {
            lemma_old_job_count_bound(jobs@.subrange(0, i as int), ref_date as int);
            lemma_sizes_nonneg(jobs@.subrange(0, i as int), ref_date as int);
        }
        let job = &jobs[i];
        if job.created_at <= ref_date {
            let mut j: usize = 0;
            let ghost base = old_job_size(jobs@.subrange(0, i as int), ref_date as int);
            while j < job.artifacts.len()
                invariant
                    j <= job.artifacts@.len(),
                    base >= 0,
                    old_size == cap_u64(base + artifacts_size(job.artifacts@.subrange(0, j as int))),
                decreases job.artifacts@.len() - j,
            {
                assert(job.artifacts@.subrange(0, j + 1).drop_last() == job.artifacts@.subrange(0, j as int));
                proof {
                    lemma_artifacts_nonneg(job.artifacts@.subrange(0, j as int));
                }
                old_size = old_size.saturating_add(job.artifacts[j].size);
                j = j + 1;
            }
            assert(job.artifacts@.subrange(0, job.artifacts@.len() as int) == job.artifacts@);
            old_count = old_count + 1;
        }
        i = i + 1;
    }
    assert(jobs@.subrange(0, jobs@.len() as int) == jobs@);
    (old_count, old_size)
}

/// `{count} jobs ({human}) are older than {days} days`.
pub open spec fn job_report_text(count: nat, human: Seq<char>, days: nat) -> Seq<char> {
    decimal(count) + " jobs ("@ + human + ") are older than "@ + decimal(days) + " days"@
}

/// The status of a job analysis, `human` being the readable size of the old
/// jobs' artifacts.
pub fn job_analysis_status(count: u64, human: &str, days: u64) -> (r: ReportStatus)
    ensures
        r is NA,
        r.message() == job_report_text(count as nat, human@, days as nat),
{
    let m = join_text(u64_text(count).as_str(), " jobs (");
    let m = join_text(m.as_str(), human);
    let m = join_text(m.as_str(), ") are older than ");
    let m = join_text(m.as_str(), u64_text(days).as_str());
    ReportStatus::NA(join_text(m.as_str(), " days"))
}

} // verus!
