use vstd::prelude::*;
use crate::connection::{sized_message, sized_text, Project};
use crate::report::{Report, ReportStatus, ARTIFACT_JOBS_LIMIT, REPO_LIMIT};

verus! {

/// Diagnosis of the size of a project's package registry.
pub struct PackageSize<'a> {
    pub project: &'a Project,
    pub report: Option<Report>,
}

/// Diagnosis of the size of a project's git repository.
pub struct RepositorySize<'a> {
    pub project: &'a Project,
    pub report: Option<Report>,
}

/// `r` is an OK status when `ok` holds, a warning otherwise, with message `msg`.
pub open spec fn ok_unless(r: ReportStatus, ok: bool, msg: Seq<char>) -> bool {
    &&& if ok { r is OK } else { r is WARNING }
    &&& r.message() == msg
}

impl<'a> PackageSize<'a> {
    pub fn new(project: &'a Project) -> (r: PackageSize<'a>)
        ensures
            r.project == project,
            r.report is None,
    {
        PackageSize { project, report: None }
    }

    /// The package registry line, `human` being its readable size: OK below
    /// the artifact limit, a warning from it on.
    pub fn analysis_storage(&self, human: &str) -> (r: Report)
        ensures
            r.details@.len() == 0,
            ok_unless(
                r.global,
                self.project.statistics.packages_size < ARTIFACT_JOBS_LIMIT,
                sized_text(
                    "Package repository size :"@,
                    human@,
                    self.project.statistics.packages_size,
                    self.project.statistics.storage_size,
                ),
            ),
    {
        let stats = &self.project.statistics;
        let msg = sized_message("Package repository size :", human, stats.packages_size, stats.storage_size);
        let global = if stats.packages_size < ARTIFACT_JOBS_LIMIT {
            ReportStatus::OK(msg)
        } else {
            ReportStatus::WARNING(msg)
        };
        Report { global, details: Vec::new() }
    }
}

impl<'a> RepositorySize<'a> {
    pub fn new(project: &'a Project) -> (r: RepositorySize<'a>)
        ensures
            r.project == project,
            r.report is None,
    {
        RepositorySize { project, report: None }
    }

    /// The git repository line, `human` being its readable size: OK below
    /// the repository limit, a warning from it on.
    pub fn analysis_storage(&self, human: &str) -> (r: Report)
        ensures
            r.details@.len() == 0,
            ok_unless(
                r.global,
                self.project.statistics.repository_size < REPO_LIMIT,
                sized_text(
                    "Git repository size :"@,
                    human@,
                    self.project.statistics.repository_size,
                    self.project.statistics.storage_size,
                ),
            ),
    {
        let stats = &self.project.statistics;
        let msg = sized_message("Git repository size :", human, stats.repository_size, stats.storage_size);
        let global = if stats.repository_size < REPO_LIMIT {
            ReportStatus::OK(msg)
        } else {
            ReportStatus::WARNING(msg)
        };
        Report { global, details: Vec::new() }
    }
}

} // verus!
