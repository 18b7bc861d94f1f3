use vstd::prelude::*;
use crate::report::ReportStatus;
use crate::text::join_text;

verus! {

/// Message when container images are cleaned up by policy, or there is no registry.
pub const CONTAINER_POLICY_ENABLED: &'static str = "Container registry cleanup policy is enabled";

/// Message when the container registry has no cleanup policy.
pub const CONTAINER_POLICY_DISABLED: &'static str = "Container registry cleanup policy is disabled";

/// Message when the package registry keeps one file per duplicated asset.
pub const DUPLICATE_ONE_PACKAGE: &'static str = "Package registry keeps one file of each duplicated asset";

/// Message when the package registry keeps several files per duplicated asset.
pub const DUPLICATE_WARN: &'static str = "Package registry keeps several files of each duplicated asset";

/// Message when the duplicate-file setting could not be read.
pub const DUPLICATE_ERROR: &'static str = "Could not read the package registry duplicate-file setting";

/// Text before the settings address in the advice line.
pub const CONF_FIX: &'static str = "Fix the registry settings at ";

/// Path of the registry settings page below the project's address.
pub const SETTINGS_PATH: &'static str = "/-/settings/packages_and_registries";

/// How many files of a duplicated package asset the registry keeps.
#[derive(Clone, Copy, Debug, PartialEq, Eq, Structural)]
pub enum KeepDuplicatedPackageFiles {
    AllPackageFiles,
    OnePackageFile,
    TwoPackageFiles,
    TenPackageFiles,
    TwentyPackageFiles,
    ThirtyPackageFiles,
    FortyPackageFiles,
    FiftyPackageFiles,
}

/// The container registry is fine when it is disabled or has an
/// expiration policy.
pub fn report_container_policy(registry_enabled: bool, expiration_policy_enabled: bool) -> (r: ReportStatus)
    ensures
        (!registry_enabled || expiration_policy_enabled) ==> r is OK && r.message() == CONTAINER_POLICY_ENABLED@,
        (registry_enabled && !expiration_policy_enabled) ==> r is WARNING && r.message() == CONTAINER_POLICY_DISABLED@,
{
    if !registry_enabled || expiration_policy_enabled {
        ReportStatus::OK(String::from_str(CONTAINER_POLICY_ENABLED))
    } else {
        ReportStatus::WARNING(String::from_str(CONTAINER_POLICY_DISABLED))
    }
}

/// The package registry is fine when it keeps one file per duplicated
/// asset; an unreadable setting is an error.
pub fn report_duplicate_policy(policy: Option<KeepDuplicatedPackageFiles>) -> (r: ReportStatus)
    ensures
        policy is None ==> r is ERROR && r.message() == DUPLICATE_ERROR@,
        policy == Some(KeepDuplicatedPackageFiles::OnePackageFile) ==> r is OK && r.message() == DUPLICATE_ONE_PACKAGE@,
        (policy is Some && policy != Some(KeepDuplicatedPackageFiles::OnePackageFile)) ==> r is WARNING
            && r.message() == DUPLICATE_WARN@,
{
    match policy {
        Some(KeepDuplicatedPackageFiles::OnePackageFile) => ReportStatus::OK(String::from_str(DUPLICATE_ONE_PACKAGE)),
        Some(_) => ReportStatus::WARNING(String::from_str(DUPLICATE_WARN)),
        None => ReportStatus::ERROR(String::from_str(DUPLICATE_ERROR)),
    }
}

/// The statuses of the configuration analysis: the container policy, the
/// duplicate policy, and, when either is not OK, the advice line with the
/// address of the settings page.
pub fn conf_statuses(container: ReportStatus, duplicate: ReportStatus, web_url: &str) -> (r: Vec<ReportStatus>)
    ensures
        r@.len() == if container is OK && duplicate is OK { 2int } else { 3 },
        r@[0] == container,
        r@[1] == duplicate,
        r@.len() == 3 ==> r@[2] is NA && r@[2].message() == CONF_FIX@ + web_url@ + SETTINGS_PATH@,
{
    let fix_it = !container.is_ok() || !duplicate.is_ok();
    let mut r = Vec::new();
    r.push(container);
    r.push(duplicate);
    if fix_it {
        let url = join_text(web_url, SETTINGS_PATH);
        r.push(ReportStatus::NA(join_text(CONF_FIX, url.as_str())));
    }
    r
}

} // verus!
