use gitlab_project_doctor::connection::Statistics;
use gitlab_project_doctor::containers::{summarize_registry, GitlabContainerRepository, GitlabContainerTag};
use gitlab_project_doctor::jobs::{number_jobs, Artifact, GitlabJob};
use gitlab_project_doctor::scoring::AnalysisReport;
use gitlab_project_doctor::storage::{PackageSize, RepositorySize};
use gitlab_project_doctor::connection::Project;
use gitlab_project_doctor::report::ReportStatus;
use gitlab_project_doctor::conf::{conf_statuses, report_container_policy, report_duplicate_policy, KeepDuplicatedPackageFiles};
use gitlab_project_doctor::api::{PackageType, PackageStatus, PackageOrderBy};

const MIB: u64 = 1024 * 1024;

fn report(repo: u64, storage: u64, artifacts: u64, packages: u64, jobs: u64, pkgs: u64) -> AnalysisReport {
    AnalysisReport {
        url: "group/project".to_string(),
        stats: Statistics { commit_count: 1, storage_size: storage, repository_size: repo, job_artifacts_size: artifacts, packages_size: packages },
        savable_bytes_jobs: jobs,
        savable_bytes_packages: pkgs,
        savable_bytes_containers: 0,
        rating: None,
        impact: None,
    }
}

#[test]
fn small_clean_project_rates_a_and_xs() {
    let mut r = report(5 * MIB, 20 * MIB, 5 * MIB, 5 * MIB, 0, 0);
    r.compute_values();
    assert_eq!(r.rating, Some("A"));
    assert_eq!(r.impact, Some("XS"));
    assert_eq!(r._get_impact(), 65 * MIB);
    assert_eq!(r._get_rating(), Some(0));
}

#[test]
fn rating_and_impact_tiers() {
    // repo 200 MiB: 100 MiB savable, weighted 900 MiB of 1800+100+100 MiB = 45 %
    let mut r = report(200 * MIB, 300 * MIB, 100 * MIB, 100 * MIB, 0, 0);
    r.compute_values();
    assert_eq!(r._get_rating(), Some(45));
    assert_eq!(r.rating, Some("C"));
    assert_eq!(r._get_impact(), 2100 * MIB);
    assert_eq!(r.impact, Some("M"));
}

#[test]
fn zero_storage_has_no_rating() {
    let mut r = report(0, 0, 0, 0, 0, 0);
    r.compute_values();
    assert_eq!(r.rating, None);
    assert_eq!(r.impact, Some("XS"));
}

#[test]
fn huge_figures_saturate() {
    let mut r = report(u64::MAX, u64::MAX, 0, 0, 0, 0);
    r.compute_values();
    assert_eq!(r._get_impact(), u64::MAX);
    assert_eq!(r.impact, Some("XL"));
    assert_eq!(r.rating, Some("E"));
}

#[test]
fn old_jobs_are_counted() {
    let jobs = vec![
        GitlabJob { created_at: 10, artifacts: vec![Artifact { size: 5 }, Artifact { size: 6 }] },
        GitlabJob { created_at: 50, artifacts: vec![Artifact { size: 100 }] },
        GitlabJob { created_at: 20, artifacts: vec![] },
    ];
    assert_eq!(number_jobs(&jobs, 20), (2, 11));
    assert_eq!(number_jobs(&[], 20), (0, 0));
}

#[test]
fn registry_summary() {
    let tag = |created_at: i64, total_size: u64| GitlabContainerTag { name: "t".to_string(), created_at, total_size };
    let repos = vec![
        GitlabContainerRepository { id: 1, created_at: 0, tags: vec![tag(5, 10), tag(50, 20)] },
        GitlabContainerRepository { id: 2, created_at: 0, tags: vec![tag(30, 7)] },
    ];
    let s = summarize_registry(&repos, 30);
    assert_eq!((s.image_count, s.registry_size, s.old_image_count), (3, 37, 1));
}

#[test]
fn storage_diagnoses() {
    let project = Project {
        id: 1,
        name: "p".to_string(),
        statistics: Statistics { commit_count: 1, storage_size: 1000, repository_size: 200_000_000, job_artifacts_size: 0, packages_size: 100 },
        jobs_enabled: true,
    };
    let repo = RepositorySize::new(&project);
    assert!(repo.report.is_none());
    let r = repo.analysis_storage("190.7 MiB");
    assert_eq!(r.global, ReportStatus::WARNING("Git repository size : 190.7 MiB (20000000 %)".to_string()));
    let pkg = PackageSize::new(&project);
    let r = pkg.analysis_storage("100 B");
    assert_eq!(r.global, ReportStatus::OK("Package repository size : 100 B (10 %)".to_string()));
    assert!(r.details.is_empty());
}

#[test]
fn configuration_statuses() {
    let c = report_container_policy(true, false);
    assert!(matches!(c, ReportStatus::WARNING(_)));
    assert!(matches!(report_container_policy(false, false), ReportStatus::OK(_)));
    let d = report_duplicate_policy(Some(KeepDuplicatedPackageFiles::OnePackageFile));
    assert!(matches!(d, ReportStatus::OK(_)));
    assert!(matches!(report_duplicate_policy(Some(KeepDuplicatedPackageFiles::AllPackageFiles)), ReportStatus::WARNING(_)));
    assert!(matches!(report_duplicate_policy(None), ReportStatus::ERROR(_)));
    let all = conf_statuses(c, d, "https://gitlab.com/g/p");
    assert_eq!(all.len(), 3);
    assert_eq!(
        all[2],
        ReportStatus::NA("Fix the registry settings at https://gitlab.com/g/p/-/settings/packages_and_registries".to_string())
    );
    let fine = conf_statuses(report_container_policy(false, false), report_duplicate_policy(Some(KeepDuplicatedPackageFiles::OnePackageFile)), "u");
    assert_eq!(fine.len(), 2);
}

#[test]
fn query_parameter_names() {
    assert_eq!(PackageType::TerraformModule.as_str(), "terraform_module");
    assert_eq!(PackageType::Maven.as_str(), "maven");
    assert_eq!(PackageStatus::PendingDestruction.as_str(), "pending_destruction");
    assert_eq!(PackageOrderBy::CreatedAt.as_str(), "created_at");
}
