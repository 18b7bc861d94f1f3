use gitlab_project_doctor::containers::{container_statuses, ContainerSummary};
use gitlab_project_doctor::jobs::job_analysis_status;
use gitlab_project_doctor::package_analysis::{package_analysis_status, package_clean_summary, PackageAnalysis};
use gitlab_project_doctor::packages::{detect_obsolete_files_with_extensions, GitlabPackage, GitlabPackageFile};
use gitlab_project_doctor::pipelines::{pipeline_analysis_status, pipeline_clean_summary};
use gitlab_project_doctor::report::{no_cicd_status, ReportStatus};

#[test]
fn pipeline_lines() {
    assert_eq!(
        pipeline_analysis_status(12, 3, 30),
        ReportStatus::NA("12 pipelines, 3 older than 30 days".to_string())
    );
    assert_eq!(pipeline_clean_summary(0, "0 B"), "0 pipelines deleted (0 B)");
}

#[test]
fn package_lines() {
    let analysis = PackageAnalysis::new();
    assert_eq!(
        package_analysis_status(&analysis, "0 B"),
        ReportStatus::NA("0 packages. 0 files are duplicated (0 B)".to_string())
    );
    assert_eq!(package_clean_summary(5, "1.2 KiB"), "5 package files deleted (1.2 KiB)");
}

#[test]
fn job_line() {
    assert_eq!(
        job_analysis_status(7, "3 MiB", 30),
        ReportStatus::NA("7 jobs (3 MiB) are older than 30 days".to_string())
    );
}

#[test]
fn container_lines() {
    let big = ContainerSummary { image_count: 4, registry_size: 6_000_000_000, old_image_count: 1 };
    assert_eq!(
        container_statuses(big, "5.6 GiB", 10),
        vec![
            ReportStatus::WARNING("Container registry size : 5.6 GiB".to_string()),
            ReportStatus::NA("4 images, 1 older than 10 days".to_string()),
        ]
    );
    let small = ContainerSummary { image_count: 0, registry_size: 10, old_image_count: 0 };
    assert!(matches!(container_statuses(small, "10 B", 10)[0], ReportStatus::OK(_)));
}

#[test]
fn no_cicd_line() {
    assert_eq!(no_cicd_status(), ReportStatus::NA("No CI/CD configured on this project".to_string()));
}

#[test]
fn maven_keys_use_given_extensions() {
    let package = GitlabPackage { id: 1, name: "g/my-app".to_string(), package_type: "maven".to_string(), created_at: 0 };
    let f = |id: u64, name: &str| GitlabPackageFile { id, created_at: 0, file_name: name.to_string(), size: 1 };
    let files = vec![f(1, "my-app-2.jar"), f(2, "my-app-1.jar"), f(3, "my-app-1.pom"), f(4, "other.jar"), f(5, "other.jar")];
    let exts: Vec<String> = [".jar", ".jar", ".pom", "", ""].iter().map(|s| s.to_string()).collect();
    assert_eq!(detect_obsolete_files_with_extensions(&package, &files, &exts), vec![1, 4]);
    let same: Vec<String> = [".x", ".x", ".x", "", ""].iter().map(|s| s.to_string()).collect();
    assert_eq!(detect_obsolete_files_with_extensions(&package, &files, &same), vec![1, 2, 4]);
}
