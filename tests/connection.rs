use gitlab_project_doctor::cli::{connection_job, Args};
use gitlab_project_doctor::connection::{
    path_from_git_url, report_global_storage, report_repo_storage, share_percent, ConnectionJob, Statistics,
};
use gitlab_project_doctor::report::{warning_if, ReportStatus};

fn as_strs(p: &(String, String)) -> (&str, &str) {
    (p.0.as_str(), p.1.as_str())
}

#[test]
fn path_from_ministry_https_url() {
    let url = "https://gitlab-forge.din.developpement-durable.gouv.fr/snum/dam/gitlab/gitlab-usage.git";
    let path = path_from_git_url(url);
    assert!(path.is_some());
    assert_eq!(
        ("gitlab-forge.din.developpement-durable.gouv.fr", "snum/dam/gitlab/gitlab-usage"),
        as_strs(&path.unwrap())
    );
}

#[test]
fn path_from_ministry_https_url_without_git() {
    let url = "https://gitlab-forge.din.developpement-durable.gouv.fr/snum/dam/gitlab/gitlab-usage";
    let path = path_from_git_url(url);
    assert!(path.is_some());
    assert_eq!(
        ("gitlab-forge.din.developpement-durable.gouv.fr", "snum/dam/gitlab/gitlab-usage"),
        as_strs(&path.unwrap())
    );
}

#[test]
fn path_from_gitlab_https_url() {
    let url = "https://gitlab.com/visiplus.formateur/debuter-javascript.git";
    let path = path_from_git_url(url);
    assert!(path.is_some());
    assert_eq!(("gitlab.com", "visiplus.formateur/debuter-javascript"), as_strs(&path.unwrap()));
}

#[test]
fn path_from_gitlab_ssh_url() {
    let url = "git@gitlab.com:visiplus.formateur/debuter-javascript.git";
    let path = path_from_git_url(url);
    assert!(path.is_some());
    assert_eq!(("gitlab.com", "visiplus.formateur/debuter-javascript"), as_strs(&path.unwrap()));
}

#[test]
fn path_from_https_url_with_trailing_slash() {
    let path = path_from_git_url("https://gitlab.com/group/project.git/").unwrap();
    assert_eq!(("gitlab.com", "group/project"), as_strs(&path));
}

#[test]
fn path_from_unknown_url_is_none() {
    assert!(path_from_git_url("not a url").is_none());
}

#[test]
fn percent_share() {
    assert_eq!(share_percent(25, 200), Some(12));
    assert_eq!(share_percent(5, 0), None);
}

fn stats(storage: u64, repo: u64) -> Statistics {
    Statistics { commit_count: 3, storage_size: storage, repository_size: repo, job_artifacts_size: 0, packages_size: 0 }
}

#[test]
fn storage_statuses() {
    assert_eq!(
        report_global_storage(&stats(3_000_000_000, 0), "2.8 GiB"),
        ReportStatus::WARNING("Storage size : 2.8 GiB".to_string())
    );
    assert_eq!(
        report_repo_storage(&stats(1000, 250), "250 B"),
        ReportStatus::OK("Git repository size : 250 B (25 %)".to_string())
    );
    assert_eq!(
        report_repo_storage(&stats(0, 200_000_000), "190.7 MiB"),
        ReportStatus::WARNING("Git repository size : 190.7 MiB (n/a %)".to_string())
    );
}

#[test]
fn warning_if_picks_severity() {
    assert_eq!(warning_if(true, "m".to_string()), ReportStatus::WARNING("m".to_string()));
    assert_eq!(warning_if(false, "m".to_string()), ReportStatus::OK("m".to_string()));
}

#[test]
fn connection_target_prefers_url() {
    let args = Args { url: Some("u".to_string()), git_path: Some("p".to_string()), batch_mode: false, analysis_mode: false, days: 30 };
    assert!(matches!(connection_job(&args), ConnectionJob::FromUrl(u) if u == "u"));
    let args = Args { url: None, git_path: None, batch_mode: false, analysis_mode: false, days: 30 };
    assert!(matches!(connection_job(&args), ConnectionJob::FromPath(p) if p == "."));
}
