use vstd::prelude::*;
use crate::report::{cap_u64, flagged, warning_if, ReportStatus, CONTAINER_REGISTRY_LIMIT};
use crate::text::{decimal, join_text, u64_text};

verus! {

/// A tag as the repository listing names it.
#[derive(Clone, Debug)]
pub struct GitlabContainerTagSummary {
    pub name: String,
}

/// A repository of the container registry, with the names of its tags.
/// `created_at` is in seconds since the epoch.
#[derive(Clone, Debug)]
pub struct GitlabRawContainerRepository {
    pub id: u64,
    pub created_at: i64,
    pub tags: Vec<GitlabContainerTagSummary>,
}

/// A tag of a container image, with its details.
#[derive(Clone, Debug)]
pub struct GitlabContainerTag {
    pub name: String,
    pub created_at: i64,
    pub total_size: u64,
}

/// A repository of the container registry, with the details of its tags.
#[derive(Clone, Debug)]
pub struct GitlabContainerRepository {
    pub id: u64,
    pub created_at: i64,
    pub tags: Vec<GitlabContainerTag>,
}

/// What the container registry holds.
#[derive(Clone, Copy, Debug, PartialEq, Eq, Structural)]
pub struct ContainerSummary {
    pub image_count: u64,
    pub registry_size: u64,
    pub old_image_count: u64,
}

/// Number of tags, total size, and number of tags created strictly before
/// the cutoff, over a list of tags.
pub open spec fn tag_totals(tags: Seq<GitlabContainerTag>, cutoff: int) -> (int, int, int)
    decreases tags.len(),
{
    if tags.len() == 0 {
        (0, 0, 0)
    } else {
        let p = tag_totals(tags.drop_last(), cutoff);
        let t = tags.last();
        (p.0 + 1, p.1 + t.total_size, p.2 + if t.created_at < cutoff { 1int } else { 0 })
    }
}

/// The same totals over the tags of every repository.
pub open spec fn registry_totals(repos: Seq<GitlabContainerRepository>, cutoff: int) -> (int, int, int)
    decreases repos.len(),
{
    if repos.len() == 0 {
        (0, 0, 0)
    } else {
        let p = registry_totals(repos.drop_last(), cutoff);
        let t = tag_totals(repos.last().tags@, cutoff);
        (p.0 + t.0, p.1 + t.1, p.2 + t.2)
    }
}

proof fn lemma_tag_totals_nonneg(tags: Seq<GitlabContainerTag>, cutoff: int)
    ensures
        tag_totals(tags, cutoff).0 >= 0,
        tag_totals(tags, cutoff).1 >= 0,
        tag_totals(tags, cutoff).2 >= 0,
    decreases tags.len(),
{
    if tags.len() > 0 {
        lemma_tag_totals_nonneg(tags.drop_last(), cutoff);
    }
}

proof fn lemma_registry_totals_nonneg(repos: Seq<GitlabContainerRepository>, cutoff: int)
    ensures
        registry_totals(repos, cutoff).0 >= 0,
        registry_totals(repos, cutoff).1 >= 0,
        registry_totals(repos, cutoff).2 >= 0,
    decreases repos.len(),
{
    if repos.len() > 0 {
        lemma_registry_totals_nonneg(repos.drop_last(), cutoff);
        lemma_tag_totals_nonneg(repos.last().tags@, cutoff);
    }
}

/// The number of images, the registry size and the number of images
/// created before `ref_date`, each saturated at the largest `u64`.
pub fn summarize_registry(repos: &[GitlabContainerRepository], ref_date: i64) -> (r: ContainerSummary)
    ensures
        r.image_count == cap_u64(registry_totals(repos@, ref_date as int).0),
        r.registry_size == cap_u64(registry_totals(repos@, ref_date as int).1),
        r.old_image_count == cap_u64(registry_totals(repos@, ref_date as int).2),
{
    let mut count: u64 = 0;
    let mut size: u64 = 0;
    let mut old: u64 = 0;
    let mut i: usize = 0;
    while i < repos.len()
        invariant
            i <= repos@.len(),
            count == cap_u64(registry_totals(repos@.subrange(0, i as int), ref_date as int).0),
            size == cap_u64(registry_totals(repos@.subrange(0, i as int), ref_date as int).1),
            old == cap_u64(registry_totals(repos@.subrange(0, i as int), ref_date as int).2),
        decreases repos@.len() - i,
    {
        assert(repos@.subrange(0, i + 1).drop_last() == repos@.subrange(0, i as int));
        let ghost base = registry_totals(repos@.subrange(0, i as int), ref_date as int);
        proof {
            lemma_registry_totals_nonneg(repos@.subrange(0, i as int), ref_date as int);
        }
        let tags = &repos[i].tags;
        let mut j: usize = 0;
        while j < tags.len()
            invariant
                j <= tags@.len(),
                base.0 >= 0 && base.1 >= 0 && base.2 >= 0,
                count == cap_u64(base.0 + tag_totals(tags@.subrange(0, j as int), ref_date as int).0),
                size == cap_u64(base.1 + tag_totals(tags@.subrange(0, j as int), ref_date as int).1),
                old == cap_u64(base.2 + tag_totals(tags@.subrange(0, j as int), ref_date as int).2),
            decreases tags@.len() - j,
        {
            assert(tags@.subrange(0, j + 1).drop_last() == tags@.subrange(0, j as int));
            proof {
                lemma_tag_totals_nonneg(tags@.subrange(0, j as int), ref_date as int);
            }
            count = count.saturating_add(1);
            size = size.saturating_add(tags[j].total_size);
            if tags[j].created_at < ref_date {
                old = old.saturating_add(1);
            }
            j = j + 1;
        }
        assert(tags@.subrange(0, tags@.len() as int) == tags@);
        i = i + 1;
    }
    assert(repos@.subrange(0, repos@.len() as int) == repos@);
    ContainerSummary { image_count: count, registry_size: size, old_image_count: old }
}

/// `{images} images, {old} older than {days} days`.
pub open spec fn container_report_text(images: nat, old: nat, days: nat) -> Seq<char> {
    decimal(images) + " images, "@ + decimal(old) + " older than "@ + decimal(days) + " days"@
}

/// The statuses of a container registry analysis, `human` being the
/// readable registry size: the size, a warning above the registry limit,
/// then the image counts.
pub fn container_statuses(summary: ContainerSummary, human: &str, days: u64) -> (r: Vec<ReportStatus>)
    ensures
        r@.len() == 2,
        flagged(r@[0], summary.registry_size > CONTAINER_REGISTRY_LIMIT, "Container registry size : "@ + human@),
        r@[1] is NA,
        r@[1].message() == container_report_text(summary.image_count as nat, summary.old_image_count as nat, days as nat),
{
    let mut r = Vec::new();
    r.push(warning_if(summary.registry_size > CONTAINER_REGISTRY_LIMIT, join_text("Container registry size : ", human)));
    let m = join_text(u64_text(summary.image_count).as_str(), " images, ");
    let m = join_text(m.as_str(), u64_text(summary.old_image_count).as_str());
    let m = join_text(m.as_str(), " older than ");
    let m = join_text(m.as_str(), u64_text(days).as_str());
    r.push(ReportStatus::NA(join_text(m.as_str(), " days")));
    r
}

} // verus!
