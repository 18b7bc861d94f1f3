use vstd::prelude::*;

verus! {

/// Total storage above which a project is flagged.
pub const STORAGE_LIMIT: u64 = 2_000_000_000;

/// Git repository size above which a project is flagged.
pub const REPO_LIMIT: u64 = 100_000_000;

/// Job artifact storage above which a project is flagged.
pub const ARTIFACT_JOBS_LIMIT: u64 = 500_000_000;

/// Number of jobs above which a project is flagged.
pub const ARTIFACT_JOBS_NB_LIMIT: usize = 1_000;

/// Package registry size above which a project is flagged.
pub const PACKAGE_REGISTRY_LIMIT: u64 = 1_000_000_000;

/// Container registry size above which a project is flagged.
pub const CONTAINER_REGISTRY_LIMIT: u64 = 5_000_000_000;

/// Age, in days, from which pipelines and jobs count as old by default.
pub const ARTIFACT_JOBS_DAYS_LIMIT: u64 = 30;

/// Message the remote API sends back for a forbidden call.
pub const GITLAB_403_ERROR: &'static str = "403 Forbidden";

/// Marker of an authorization-scope deficiency in a remote error message.
pub const GITLAB_SCOPE_ERROR: &'static str = "insufficient_scope";

/// `n`, or the largest `u64` when `n` is larger.
pub open spec fn cap_u64(n: int) -> int {
    if n > u64::MAX { u64::MAX as int } else { n }
}

/// The outcome of one check, with a human-readable message.
#[derive(Clone, Debug, PartialEq, Eq)]
pub enum ReportStatus {
    OK(String),
    WARNING(String),
    ERROR(String),
    NA(String),
}

impl ReportStatus {
    /// The message carried by the status, whatever its severity.
    pub open spec fn message(&self) -> Seq<char> {
        match self {
            ReportStatus::OK(m) => m@,
            ReportStatus::WARNING(m) => m@,
            ReportStatus::ERROR(m) => m@,
            ReportStatus::NA(m) => m@,
        }
    }

    pub fn is_ok(&self) -> (r: bool)
        ensures
            r == (self is OK),
    {
        matches!(self, ReportStatus::OK(_))
    }
}

/// A node of the printable report tree.
pub struct Report {
    pub global: ReportStatus,
    pub details: Vec<Report>,
}

/// `a` and `b` have the same severity and the same message.
pub open spec fn same_status(a: ReportStatus, b: ReportStatus) -> bool {
    match (a, b) {
        (ReportStatus::OK(x), ReportStatus::OK(y)) => x@ == y@,
        (ReportStatus::WARNING(x), ReportStatus::WARNING(y)) => x@ == y@,
        (ReportStatus::ERROR(x), ReportStatus::ERROR(y)) => x@ == y@,
        (ReportStatus::NA(x), ReportStatus::NA(y)) => x@ == y@,
        _ => false,
    }
}

/// The two lists hold the same statuses, in the same order.
pub open spec fn same_statuses(a: Seq<ReportStatus>, b: Seq<ReportStatus>) -> bool {
    a.len() == b.len() && forall|i: int| 0 <= i < a.len() ==> same_status(#[trigger] a[i], b[i])
}

impl ReportStatus {
    /// A copy of the status.
    pub fn duplicate(&self) -> (r: ReportStatus)
        ensures
            same_status(r, *self),
    {
        match self {
            ReportStatus::OK(m) => ReportStatus::OK(m.clone()),
            ReportStatus::WARNING(m) => ReportStatus::WARNING(m.clone()),
            ReportStatus::ERROR(m) => ReportStatus::ERROR(m.clone()),
            ReportStatus::NA(m) => ReportStatus::NA(m.clone()),
        }
    }
}

/// A copy of a list of statuses.
pub fn copy_statuses(statuses: &Vec<ReportStatus>) -> (r: Vec<ReportStatus>)
    ensures
        same_statuses(r@, statuses@),
{
    let mut r: Vec<ReportStatus> = Vec::new();
    let mut i: usize = 0;
    while i < statuses.len()
        invariant
            i <= statuses@.len(),
            r@.len() == i,
            forall|k: int| 0 <= k < i ==> same_status(#[trigger] r@[k], statuses@[k]),
        decreases statuses@.len() - i,
    {
        r.push(statuses[i].duplicate());
        i = i + 1;
    }
    r
}

/// Capability of every job result: a flat list of statuses summarizing it.
pub trait Reportable {
    /// The statuses of the result.
    spec fn statuses(&self) -> Seq<ReportStatus>;

    /// The statuses of the result, in order.
    fn report(&self) -> (r: Vec<ReportStatus>)
        ensures
            same_statuses(r@, self.statuses()),
    ;
}

/// `r` is a warning when `c` holds, an OK status otherwise, with message `msg`.
pub open spec fn flagged(r: ReportStatus, c: bool, msg: Seq<char>) -> bool {
    &&& if c { r is WARNING } else { r is OK }
    &&& r.message() == msg
}

/// A warning when the condition holds, an OK status otherwise.
pub fn warning_if(condition: bool, message: String) -> (r: ReportStatus)
    ensures
        r == (if condition {
            ReportStatus::WARNING(message)
        } else {
            ReportStatus::OK(message)
        }),
{
    if condition {
        ReportStatus::WARNING(message)
    } else {
        ReportStatus::OK(message)
    }
}

/// Text of the status given by a diagnosis of a project without CI/CD.
pub const NO_CICD: &'static str = "No CI/CD configured on this project";

/// The status of a diagnosis that does not apply, the project having no CI/CD.
pub fn no_cicd_status() -> (r: ReportStatus)
    ensures
        r is NA,
        r.message() == NO_CICD@,
{
    ReportStatus::NA(String::from_str(NO_CICD))
}

} // verus!
