use chrono::{Duration, Local};
use gitlab_project_doctor::package_analysis::{FileFromPackage, PackageAnalysis, PackageCleanReport};
use gitlab_project_doctor::packages::{detect_obsolete_files, package_short_name, GitlabPackage, GitlabPackageFile};
use gitlab_project_doctor::remedy::{DeleteOutcome, DeletionBatch};
use gitlab_project_doctor::report::{ReportStatus, Reportable};

fn days_ago(days: i64) -> i64 {
    (Local::now() - Duration::days(days)).timestamp()
}

fn file(id: u64, age: i64, name: &str, size: u64) -> GitlabPackageFile {
    GitlabPackageFile { id, created_at: days_ago(age), file_name: name.to_string(), size }
}

fn package(name: &str, package_type: &str) -> GitlabPackage {
    GitlabPackage { id: 42, name: name.to_string(), package_type: package_type.to_string(), created_at: days_ago(30) }
}

fn maven_files() -> Vec<GitlabPackageFile> {
    vec![
        file(50, 4, "my-app-1.5-20181107.152550-1.jar", 13),
        file(54, 4, "my-app-1.5-20181107.152550-1.pom", 13),
        file(50, 4, "maven-metadata.xml", 13),
        file(50, 5, "my-app-1.5-20181007.142550-1.jar", 13),
        file(54, 5, "my-app-1.5-20181007.142550-1.pom", 13),
        file(50, 5, "maven-metadata.xml", 13),
    ]
}

#[test]
fn detect_generic_obsolete_files_nominal() {
    let package = package("generic", "");
    let files = vec![
        file(50, 4, "abc.txt", 13),
        file(54, 5, "abc.txt", 13),
        file(50, 6, "zyx.txt", 13),
        file(56, 7, "abc.txt", 13),
        file(50, 8, "zyx.txt", 13),
    ];
    let ids = detect_obsolete_files(&package, &files);
    assert_eq!(ids, vec![1, 3, 4]);
}

#[test]
fn detect_obsolete_files_empty() {
    let package = package("my-generic", "generic");
    let files = vec![];
    let ids = detect_obsolete_files(&package, &files);
    assert_eq!(ids, Vec::<usize>::new());
}

#[test]
fn detect_maven_obsolete_files_nominal() {
    let package = package("my-app", "maven");
    let ids = detect_obsolete_files(&package, &maven_files());
    assert_eq!(ids, vec![3, 4, 5]);
}

#[test]
fn detect_generic_obsolete_files_with_mvn_traps() {
    let package = package("my-app", "generic");
    let ids = detect_obsolete_files(&package, &maven_files());
    assert_eq!(ids, vec![5]);
}

#[test]
fn detect_empty_for_maven_package() {
    let package = package("group/my-app", "maven");
    assert_eq!(detect_obsolete_files(&package, &[]), Vec::<usize>::new());
}

#[test]
fn detect_single_file_keeps_it() {
    let package = package("my-app", "maven");
    let files = vec![file(1, 1, "my-app-1.0.jar", 10)];
    assert_eq!(detect_obsolete_files(&package, &files), Vec::<usize>::new());
}

#[test]
fn detect_never_lists_first_file_and_is_stable() {
    let package = package("x", "");
    let files = vec![file(1, 1, "a", 1), file(2, 2, "a", 1), file(3, 3, "a", 1)];
    let first = detect_obsolete_files(&package, &files);
    let second = detect_obsolete_files(&package, &files);
    assert_eq!(first, vec![1, 2]);
    assert_eq!(first, second);
    let kept: Vec<GitlabPackageFile> = files
        .iter()
        .enumerate()
        .filter(|(i, _)| !first.contains(i))
        .map(|(_, f)| f.clone())
        .collect();
    assert_eq!(detect_obsolete_files(&package, &kept), Vec::<usize>::new());
}

#[test]
fn detect_maven_uses_short_name_after_slash() {
    let package = package("com/example/my-app", "maven");
    let files = vec![
        file(1, 1, "my-app-2.0-1.jar", 1),
        file(2, 2, "my-app-1.0-1.jar", 1),
        file(3, 3, "my-app-1.0-1.pom", 1),
    ];
    assert_eq!(detect_obsolete_files(&package, &files), vec![1]);
}

#[test]
fn short_name_of_nested_package() {
    assert_eq!(package_short_name("a/b/c"), "c");
    assert_eq!(package_short_name("plain"), "plain");
    assert_eq!(package_short_name("ends/"), "");
}

#[test]
fn analysis_sorts_files_and_sums_obsolete_sizes() {
    let mut analysis = PackageAnalysis::new();
    let files = vec![
        file(1, 9, "abc.txt", 100),
        file(2, 1, "abc.txt", 7),
        file(3, 5, "abc.txt", 20),
    ];
    analysis.add_package(package("p", "generic"), files);
    assert_eq!(analysis.packages.len(), 1);
    let sorted: Vec<u64> = analysis.packages[0].sorted_files.iter().map(|f| f.id).collect();
    assert_eq!(sorted, vec![2, 3, 1]);
    let obsolete: Vec<u64> = analysis.obsolete_files.iter().map(|f| f.file.id).collect();
    assert_eq!(obsolete, vec![3, 1]);
    assert_eq!(analysis.savable_files, 2);
    assert_eq!(analysis.savable_bytes, 120);
    assert!(analysis.obsolete_files.iter().all(|f| f.package_id == 42));
}

#[test]
fn package_fatal_error_message() {
    let report = PackageCleanReport::fatal_error(1234, "boom");
    assert_eq!(report.saved_bytes, 0);
    assert!(report.deleted_files.is_empty());
    assert_eq!(report.report_status, vec![ReportStatus::ERROR("Package 1234 - Error : boom".to_string())]);
    assert_eq!(report.report(), report.report_status);
    assert_eq!(PackageCleanReport::fatal_error(0, "x").report(), vec![ReportStatus::ERROR("Package 0 - Error : x".to_string())]);
}

#[test]
fn package_clean_keeps_partial_progress() {
    let files: Vec<FileFromPackage> = vec![
        FileFromPackage { package_id: 1, file: file(10, 1, "a", 5) },
        FileFromPackage { package_id: 1, file: file(11, 1, "b", 6) },
        FileFromPackage { package_id: 1, file: file(12, 1, "c", 7) },
    ];
    let mut batch = DeletionBatch::new(files.len());
    batch.record(DeleteOutcome::Deleted);
    batch.record(DeleteOutcome::Deleted);
    batch.record(DeleteOutcome::Other("disk on fire".to_string()));
    let report = PackageCleanReport::conclude(files, &batch, "2 files deleted".to_string());
    assert_eq!(report.saved_bytes, 11);
    assert_eq!(report.deleted_files.len(), 2);
    assert_eq!(
        report.report_status,
        vec![
            ReportStatus::OK("2 files deleted".to_string()),
            ReportStatus::ERROR("Package 12 - Error : disk on fire".to_string()),
        ]
    );
}
