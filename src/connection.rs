use vstd::prelude::*;
use crate::report::{
    flagged, warning_if, ReportStatus, ARTIFACT_JOBS_LIMIT, PACKAGE_REGISTRY_LIMIT, REPO_LIMIT, STORAGE_LIMIT,
};
use crate::text::{decimal, join_text, trim_end_suffix, trim_end_text, u64_text};

verus! {

/// Aggregate storage figures of a project, in bytes.
#[derive(Clone, Copy, Debug, PartialEq, Eq, Structural)]
pub struct Statistics {
    pub commit_count: u64,
    pub storage_size: u64,
    pub repository_size: u64,
    pub job_artifacts_size: u64,
    pub packages_size: u64,
}

/// The audited project.
#[derive(Clone, Debug)]
pub struct Project {
    pub id: u64,
    pub name: String,
    pub statistics: Statistics,
    pub jobs_enabled: bool,
}

/// Where the project to audit is found: a remote URL, or the path of a
/// local working copy.
#[derive(Clone, Debug)]
pub enum ConnectionJob {
    FromUrl(String),
    FromPath(String),
}

/// What the pattern `(http(s)?://)(.+?)/(.+)(\.git)?(/)?` captures in its
/// third and fourth groups, when it matches.
pub uninterp spec fn https_parts(url: Seq<char>) -> Option<(Seq<char>, Seq<char>)>;

/// What the pattern `(git@)(.+?):(.+)(\.git)(/)?` captures in its second
/// and third groups, when it matches.
pub uninterp spec fn ssh_parts(url: Seq<char>) -> Option<(Seq<char>, Seq<char>)>;

/// Relies on `regex::Regex::captures` with the pattern
/// `(http(s)?://)(.+?)/(.+)(\.git)?(/)?`: server and path of an https URL;
/// the result depends on the URL alone.
#[verifier::external_body]
fn https_captures(url: &str) -> (r: Option<(String, String)>)
    ensures
        match r {
            Some(t) => https_parts(url@) == Some((t.0@, t.1@)),
            None => https_parts(url@) is None,
        },
{
    let re = regex::Regex::new("(http(s)?://)(.+?)/(.+)(\\.git)?(/)?").unwrap();
    let caps = re.captures(url)?;
    Some((caps.get(3)?.as_str().to_string(), caps.get(4)?.as_str().to_string()))
}

/// Relies on `regex::Regex::captures` with the pattern
/// `(git@)(.+?):(.+)(\.git)(/)?`: server and path of an ssh remote; the
/// result depends on the URL alone.
#[verifier::external_body]
fn ssh_captures(url: &str) -> (r: Option<(String, String)>)
    ensures
        match r {
            Some(t) => ssh_parts(url@) == Some((t.0@, t.1@)),
            None => ssh_parts(url@) is None,
        },
{
    let re = regex::Regex::new("(git@)(.+?):(.+)(\\.git)(/)?").unwrap();
    let caps = re.captures(url)?;
    Some((caps.get(2)?.as_str().to_string(), caps.get(3)?.as_str().to_string()))
}

/// The project path of an https URL: without trailing `/`, then without
/// trailing `.git`.
pub open spec fn https_path(path: Seq<char>) -> Seq<char> {
    trim_end_suffix(trim_end_suffix(path, "/"@), ".git"@)
}

/// Server and project path of a git remote URL, https first, ssh otherwise.
pub open spec fn git_url_parts(url: Seq<char>) -> Option<(Seq<char>, Seq<char>)> {
    match https_parts(url) {
        Some(p) => Some((p.0, https_path(p.1))),
        None => ssh_parts(url),
    }
}

/// Server and project path from what the https pattern captured.
pub fn normalize_https_parts(server: String, path: &str) -> (r: (String, String))
    ensures
        r.0@ == server@,
        r.1@ == https_path(path@),
{
    let trimmed = trim_end_text(path, "/");
    (server, trim_end_text(trimmed.as_str(), ".git"))
}

/// Server and project path of a git remote URL, in its https or its ssh form.
pub fn path_from_git_url(url: &str) -> (r: Option<(String, String)>)
    ensures
        match r {
            Some(t) => git_url_parts(url@) == Some((t.0@, t.1@)),
            None => git_url_parts(url@) is None,
        },
{
    match https_captures(url) {
        Some((server, path)) => Some(normalize_https_parts(server, path.as_str())),
        None => ssh_captures(url),
    }
}

/// `100 * part / total`, saturated at the largest `u64`; nothing when the
/// total is zero.
pub open spec fn percent_of(part: u64, total: u64) -> Option<int> {
    if total == 0 {
        None
    } else {
        let p = (100 * part as int) / (total as int);
        Some(if p > u64::MAX { u64::MAX as int } else { p })
    }
}

/// The share of `part` in `total`, in percent, rounded down.
pub fn share_percent(part: u64, total: u64) -> (r: Option<u64>)
    ensures
        match r {
            Some(p) => percent_of(part, total) == Some(p as int),
            None => percent_of(part, total) is None,
        },
{
    if total == 0 {
        return None;
    }
    let p: u128 = (100 * part as u128) / (total as u128);
    if p > u64::MAX as u128 {
        Some(u64::MAX)
    } else {
        Some(p as u64)
    }
}

/// The percentage text of `part` in `total`, `n/a` for an empty total.
pub open spec fn percent_text(part: u64, total: u64) -> Seq<char> {
    match percent_of(part, total) {
        Some(p) => decimal(p as nat),
        None => "n/a"@,
    }
}

/// `label human (pct %)`.
pub open spec fn sized_text(label: Seq<char>, human: Seq<char>, part: u64, total: u64) -> Seq<char> {
    label + " "@ + human + " ("@ + percent_text(part, total) + " %)"@
}

/// The line of a storage figure: its label, its readable size and its share
/// of the total storage.
pub fn sized_message(label: &str, human: &str, part: u64, total: u64) -> (r: String)
    ensures
        r@ == sized_text(label@, human@, part, total),
{
    let pct = match share_percent(part, total) {
        Some(p) => u64_text(p),
        None => String::from_str("n/a"),
    };
    let m = join_text(label, " ");
    let m = join_text(m.as_str(), human);
    let m = join_text(m.as_str(), " (");
    let m = join_text(m.as_str(), pct.as_str());
    join_text(m.as_str(), " %)")
}

/// Total storage: a warning above the storage limit.
pub fn report_global_storage(stats: &Statistics, human: &str) -> (r: ReportStatus)
    ensures
        flagged(r, stats.storage_size > STORAGE_LIMIT, "Storage size : "@ + human@),
{
    warning_if(stats.storage_size > STORAGE_LIMIT, join_text("Storage size : ", human))
}

/// Git repository size: a warning above the repository limit.
pub fn report_repo_storage(stats: &Statistics, human: &str) -> (r: ReportStatus)
    ensures
        flagged(
            r,
            stats.repository_size > REPO_LIMIT,
            sized_text("Git repository size :"@, human@, stats.repository_size, stats.storage_size),
        ),
{
    let m = sized_message("Git repository size :", human, stats.repository_size, stats.storage_size);
    warning_if(stats.repository_size > REPO_LIMIT, m)
}

/// Job artifacts size: a warning above the artifact limit.
pub fn report_artifact_storage(stats: &Statistics, human: &str) -> (r: ReportStatus)
    ensures
        flagged(
            r,
            stats.job_artifacts_size > ARTIFACT_JOBS_LIMIT,
            sized_text("Job artifacts size :"@, human@, stats.job_artifacts_size, stats.storage_size),
        ),
{
    let m = sized_message("Job artifacts size :", human, stats.job_artifacts_size, stats.storage_size);
    warning_if(stats.job_artifacts_size > ARTIFACT_JOBS_LIMIT, m)
}

/// Package registry size: a warning above the package registry limit.
pub fn report_package_storage(stats: &Statistics, human: &str) -> (r: ReportStatus)
    ensures
        flagged(
            r,
            stats.packages_size > PACKAGE_REGISTRY_LIMIT,
            sized_text("Package registry size :"@, human@, stats.packages_size, stats.storage_size),
        ),
{
    let m = sized_message("Package registry size :", human, stats.packages_size, stats.storage_size);
    warning_if(stats.packages_size > PACKAGE_REGISTRY_LIMIT, m)
}

} // verus!
