use vstd::prelude::*;

verus! {

/// Keys packages results may be ordered by.
#[derive(Clone, Copy, Debug, PartialEq, Eq, Structural)]
pub enum PackageOrderBy {
    CreatedAt,
    Name,
    Version,
    Type,
}

impl PackageOrderBy {
    /// The ordering as a query parameter.
    pub fn as_str(self) -> (r: &'static str)
        ensures
            r@ == match self {
                PackageOrderBy::CreatedAt => "created_at"@,
                PackageOrderBy::Name => "name"@,
                PackageOrderBy::Version => "version"@,
                PackageOrderBy::Type => "type"@,
            },
    {
        match self {
            PackageOrderBy::CreatedAt => "created_at",
            PackageOrderBy::Name => "name",
            PackageOrderBy::Version => "version",
            PackageOrderBy::Type => "type",
        }
    }
}

/// The type of a package.
#[derive(Clone, Copy, Debug, PartialEq, Eq, Structural)]
pub enum PackageType {
    Conan,
    Maven,
    Npm,
    Pypi,
    Composer,
    Nuget,
    Helm,
    TerraformModule,
    Golang,
}

impl PackageType {
    /// The package type as a query parameter.
    pub fn as_str(self) -> (r: &'static str)
        ensures
            r@ == match self {
                PackageType::Conan => "conan"@,
                PackageType::Maven => "maven"@,
                PackageType::Npm => "npm"@,
                PackageType::Pypi => "pypi"@,
                PackageType::Composer => "composer"@,
                PackageType::Nuget => "nuget"@,
                PackageType::Helm => "helm"@,
                PackageType::TerraformModule => "terraform_module"@,
                PackageType::Golang => "golang"@,
            },
    {
        match self {
            PackageType::Conan => "conan",
            PackageType::Maven => "maven",
            PackageType::Npm => "npm",
            PackageType::Pypi => "pypi",
            PackageType::Composer => "composer",
            PackageType::Nuget => "nuget",
            PackageType::Helm => "helm",
            PackageType::TerraformModule => "terraform_module",
            PackageType::Golang => "golang",
        }
    }
}

/// The status of a package.
#[derive(Clone, Copy, Debug, PartialEq, Eq, Structural)]
pub enum PackageStatus {
    Default,
    Hidden,
    Processing,
    Error,
    PendingDestruction,
}

impl PackageStatus {
    /// The package status as a query parameter.
    pub fn as_str(self) -> (r: &'static str)
        ensures
            r@ == match self {
                PackageStatus::Default => "default"@,
                PackageStatus::Hidden => "hidden"@,
                PackageStatus::Processing => "processing"@,
                PackageStatus::Error => "error"@,
                PackageStatus::PendingDestruction => "pending_destruction"@,
            },
    {
        match self {
            PackageStatus::Default => "default",
            PackageStatus::Hidden => "hidden",
            PackageStatus::Processing => "processing",
            PackageStatus::Error => "error",
            PackageStatus::PendingDestruction => "pending_destruction",
        }
    }
}

} // verus!
