use vstd::prelude::*;
use crate::order::{Dated, sort_by_age, sorted_by_age};
use crate::packages::{
    detect_obsolete_files, keys_of, lemma_repeated_indices_members, obsolete_indices, GitlabPackage,
    GitlabPackageFile,
};
use crate::remedy::DeletionBatch;
use crate::report::{cap_u64, copy_statuses, ReportStatus, Reportable};
use crate::text::{decimal, join_text, u64_text};

verus! {

impl Dated for GitlabPackage {
    open spec fn created(&self) -> int {
        self.created_at as int
    }

    fn created_at(&self) -> (r: i64) {
        self.created_at
    }
}

impl Dated for GitlabPackageFile {
    open spec fn created(&self) -> int {
        self.created_at as int
    }

    fn created_at(&self) -> (r: i64) {
        self.created_at
    }
}

/// Two file records describe the same file.
pub open spec fn same_file(a: GitlabPackageFile, b: GitlabPackageFile) -> bool {
    a.id == b.id && a.created_at == b.created_at && a.file_name@ == b.file_name@ && a.size == b.size
}

impl GitlabPackageFile {
    /// A copy of the record.
    pub fn duplicate(&self) -> (r: Self)
        ensures
            same_file(r, *self),
    {
        GitlabPackageFile {
            id: self.id,
            created_at: self.created_at,
            file_name: self.file_name.clone(),
            size: self.size,
        }
    }
}

/// A package with its files, newest first.
pub struct PackageWithFile {
    pub package: GitlabPackage,
    pub sorted_files: Vec<GitlabPackageFile>,
}

/// A package file, with the package it belongs to.
pub struct FileFromPackage {
    pub package_id: u64,
    pub file: GitlabPackageFile,
}

/// Total size of the files of `files` at the indices `ids`.
pub open spec fn size_at(files: Seq<GitlabPackageFile>, ids: Seq<usize>) -> int
    decreases ids.len(),
{
    if ids.len() == 0 {
        0
    } else {
        size_at(files, ids.drop_last()) + files[ids.last() as int].size
    }
}

/// Total size of the files of a list.
pub open spec fn total_size(files: Seq<FileFromPackage>) -> int
    decreases files.len(),
{
    if files.len() == 0 {
        0
    } else {
        total_size(files.drop_last()) + files.last().file.size
    }
}

/// What the analysis of a project's packages found: every package with its
/// sorted files, and the files that are obsolete.
pub struct PackageAnalysis {
    pub packages: Vec<PackageWithFile>,
    pub obsolete_files: Vec<FileFromPackage>,
    pub savable_files: usize,
    pub savable_bytes: u64,
}

impl PackageAnalysis {
    pub open spec fn wf(&self) -> bool {
        &&& self.savable_files == self.obsolete_files@.len()
        &&& self.savable_bytes == cap_u64(total_size(self.obsolete_files@))
    }

    /// An analysis that found no package.
    pub fn new() -> (r: Self)
        ensures
            r.wf(),
            r.packages@.len() == 0,
            r.obsolete_files@.len() == 0,
    {
        PackageAnalysis { packages: Vec::new(), obsolete_files: Vec::new(), savable_files: 0, savable_bytes: 0 }
    }

    /// Takes in one package and its files: the files are sorted newest
    /// first, the obsolete ones are added to the obsolete list in order, and
    /// the savable figures grow by their count and total size (saturated at
    /// the largest `u64`).
    pub fn add_package(&mut self, package: GitlabPackage, files: Vec<GitlabPackageFile>)
        requires
            old(self).wf(),
        ensures
            final(self).wf(),
            final(self).packages@.len() == old(self).packages@.len() + 1,
            forall|k: int| 0 <= k < old(self).packages@.len() ==> final(self).packages@[k] == old(self).packages@[k],
            final(self).packages@.last().package == package,
            ({
                let sorted = final(self).packages@.last().sorted_files@;
                let ids = obsolete_indices(package, sorted);
                let n = old(self).obsolete_files@.len();
                &&& sorted.to_multiset() == files@.to_multiset()
                &&& sorted_by_age(sorted, true)
                &&& final(self).obsolete_files@.len() == n + ids.len()
                &&& forall|k: int| 0 <= k < n ==> final(self).obsolete_files@[k] == old(self).obsolete_files@[k]
                &&& forall|k: int| 0 <= k < ids.len() ==> (#[trigger] final(self).obsolete_files@[n + k]).package_id == package.id
                    && same_file(final(self).obsolete_files@[n + k].file, sorted[ids[k] as int])
            }),
    {
        let sorted = sort_by_age(files, true);
        let ids = detect_obsolete_files(&package, sorted.as_slice());
        let file_count = sorted.len();
        proof {
            assert(keys_of(package, sorted@).len() == file_count);
            lemma_repeated_indices_members(keys_of(package, sorted@));
        }
        let ghost old_files = self.obsolete_files@;
        let ghost n = old_files.len();
        let mut k: usize = 0;
        while k < ids.len()
            invariant
                ids@ == obsolete_indices(package, sorted@),
                forall|a: int| 0 <= a < ids@.len() ==> (ids@[a] as int) < sorted@.len(),
                k <= ids@.len(),
                self.packages@ == old(self).packages@,
                n == old_files.len(),
                self.obsolete_files@.len() == n + k,
                forall|a: int| 0 <= a < n ==> self.obsolete_files@[a] == old_files[a],
                forall|a: int| 0 <= a < k ==> (#[trigger] self.obsolete_files@[n + a]).package_id == package.id
                    && same_file(self.obsolete_files@[n + a].file, sorted@[ids@[a] as int]),
                self.savable_bytes == cap_u64(total_size(old_files)),
                self.savable_files == n,
                total_size(self.obsolete_files@) == total_size(old_files) + size_at(sorted@, ids@.subrange(0, k as int)),
            decreases ids@.len() - k,
        {
            let file = sorted[ids[k]].duplicate();
            assert(same_file(file, sorted@[ids@[k as int] as int]));
            let ghost before = self.obsolete_files@;
            self.obsolete_files.push(FileFromPackage { package_id: package.id, file });
            proof {
                assert(self.obsolete_files@.drop_last() == before);
                assert(ids@.subrange(0, k + 1).drop_last() == ids@.subrange(0, k as int));
                assert forall|a: int| 0 <= a < k + 1 implies (#[trigger] self.obsolete_files@[n + a]).package_id == package.id
                    && same_file(self.obsolete_files@[n + a].file, sorted@[ids@[a] as int]) by {
                    if a < k {
                        assert(self.obsolete_files@[n + a] == before[n + a]);
                    }
                }
            }
            k = k + 1;
        }
        assert(ids@.subrange(0, ids@.len() as int) == ids@);
        let mut bytes = self.savable_bytes;
        let mut j: usize = 0;
        while j < ids.len()
            invariant
                forall|a: int| 0 <= a < ids@.len() ==> (ids@[a] as int) < sorted@.len(),
                j <= ids@.len(),
                bytes == cap_u64(total_size(old_files) + size_at(sorted@, ids@.subrange(0, j as int))),
            decreases ids@.len() - j,
        {
            assert(ids@.subrange(0, j + 1).drop_last() == ids@.subrange(0, j as int));
            bytes = bytes.saturating_add(sorted[ids[j]].size);
            j = j + 1;
        }
        self.savable_bytes = bytes;
        self.savable_files = self.obsolete_files.len();
        self.packages.push(PackageWithFile { package, sorted_files: sorted });
    }
}

/// The outcome of a package-file cleanup.
pub struct PackageCleanReport {
    pub saved_bytes: u64,
    pub deleted_files: Vec<FileFromPackage>,
    pub report_status: Vec<ReportStatus>,
}

/// The message of a fatal error on a package file.
pub open spec fn package_error_message(id: u64, msg: Seq<char>) -> Seq<char> {
    "Package "@ + decimal(id as nat) + " - Error : "@ + msg
}

/// Total size of the first `count` files of a list, saturated at the
/// largest `u64`.
pub fn deleted_size(files: &Vec<FileFromPackage>, count: usize) -> (r: u64)
    requires
        count <= files@.len(),
    ensures
        r == cap_u64(total_size(files@.subrange(0, count as int))),
{
    let mut total: u64 = 0;
    let mut i: usize = 0;
    while i < count
        invariant
            count <= files@.len(),
            i <= count,
            total == cap_u64(total_size(files@.subrange(0, i as int))),
        decreases count - i,
    {
        assert(files@.subrange(0, i + 1).drop_last() == files@.subrange(0, i as int));
        total = total.saturating_add(files[i].file.size);
        i = i + 1;
    }
    total
}

impl PackageCleanReport {
    /// A report with no deletion and one fatal error on file `id`.
    pub fn fatal_error(id: u64, msg: &str) -> (r: Self)
        ensures
            r.saved_bytes == 0,
            r.deleted_files@.len() == 0,
            r.report_status@.len() == 1,
            r.report_status@[0] is ERROR,
            r.report_status@[0].message() == package_error_message(id, msg@),
    {
        let mut report_status = Vec::new();
        report_status.push(package_error_status(id, msg));
        PackageCleanReport { saved_bytes: 0, deleted_files: Vec::new(), report_status }
    }

    /// The report of a finished or stopped cleanup of `files`: the files
    /// deleted before the batch ended, their total size, the summary line,
    /// then the fatal error if the batch stopped on one.
    pub fn conclude(files: Vec<FileFromPackage>, batch: &DeletionBatch, summary: String) -> (r: Self)
        requires
            batch.wf(),
            batch.total == files@.len(),
        ensures
            r.deleted_files@ == files@.subrange(0, batch.deleted as int),
            r.saved_bytes == cap_u64(total_size(r.deleted_files@)),
            r.report_status@.len() == 1 + (if batch.failure is Some { 1int } else { 0 }),
            r.report_status@[0] == ReportStatus::OK(summary),
            batch.failure is Some ==> r.report_status@[1] is ERROR && r.report_status@[1].message()
                == package_error_message(files@[batch.deleted as int].file.id, batch.failure.unwrap()@),
    {
        let saved_bytes = deleted_size(&files, batch.deleted);
        let mut report_status = Vec::new();
        report_status.push(ReportStatus::OK(summary));
        match &batch.failure {
            Some(m) => {
                let id = files[batch.deleted].file.id;
                report_status.push(package_error_status(id, m.as_str()));
            },
            None => {},
        }
        let mut deleted_files = files;
        deleted_files.truncate(batch.deleted);
        PackageCleanReport { saved_bytes, deleted_files, report_status }
    }
}

/// The error status of a fatal error on a package file.
pub fn package_error_status(id: u64, msg: &str) -> (r: ReportStatus)
    ensures
        r is ERROR,
        r.message() == package_error_message(id, msg@),
{
    let head = join_text("Package ", u64_text(id).as_str());
    let head = join_text(head.as_str(), " - Error : ");
    ReportStatus::ERROR(join_text(head.as_str(), msg))
}

impl Reportable for PackageCleanReport {
    open spec fn statuses(&self) -> Seq<ReportStatus> {
        self.report_status@
    }

    fn report(&self) -> (r: Vec<ReportStatus>) {
        copy_statuses(&self.report_status)
    }
}

/// `{packages} packages. {files} files are duplicated ({human})`.
pub open spec fn package_report_text(packages: nat, files: nat, human: Seq<char>) -> Seq<char> {
    decimal(packages) + " packages. "@ + decimal(files) + " files are duplicated ("@ + human + ")"@
}

/// The status of a package analysis, `human` being the readable savable size.
pub fn package_analysis_status(analysis: &PackageAnalysis, human: &str) -> (r: ReportStatus)
    ensures
        r is NA,
        r.message() == package_report_text(analysis.packages@.len(), analysis.savable_files as nat, human@),
{
    let m = join_text(u64_text(analysis.packages.len() as u64).as_str(), " packages. ");
    let m = join_text(m.as_str(), u64_text(analysis.savable_files as u64).as_str());
    let m = join_text(m.as_str(), " files are duplicated (");
    let m = join_text(m.as_str(), human);
    ReportStatus::NA(join_text(m.as_str(), ")"))
}

/// `{count} package files deleted ({human})`.
pub open spec fn package_clean_text(count: nat, human: Seq<char>) -> Seq<char> {
    decimal(count) + " package files deleted ("@ + human + ")"@
}

/// The summary line of a package-file cleanup, `human` being the readable
/// amount of bytes freed.
pub fn package_clean_summary(count: u64, human: &str) -> (r: String)
    ensures
        r@ == package_clean_text(count as nat, human@),
{
    let m = join_text(u64_text(count).as_str(), " package files deleted (");
    let m = join_text(m.as_str(), human);
    join_text(m.as_str(), ")")
}

} // verus!
