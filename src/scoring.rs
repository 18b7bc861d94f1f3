use vstd::prelude::*;
use crate::connection::Statistics;
use crate::report::cap_u64;

verus! {

/// Repository size up to which nothing of the repository counts as savable.
pub const REPO_SAVABLE_LIMIT: u64 = 100 * 1024 * 1024;

/// Overall figures of an analysis, with the derived impact and rating tiers.
pub struct AnalysisReport {
    pub url: String,
    pub stats: Statistics,
    pub savable_bytes_jobs: u64,
    pub savable_bytes_packages: u64,
    pub savable_bytes_containers: u64,
    pub rating: Option<&'static str>,
    pub impact: Option<&'static str>,
}

/// Storage footprint, the repository weighing nine times more.
pub open spec fn impact_number(stats: Statistics) -> int {
    stats.repository_size * 9 + stats.storage_size
}

/// Reclaimable share of the weighted storage, in percent; nothing when the
/// weighted storage is zero.
pub open spec fn rating_number(stats: Statistics, jobs: u64, packages: u64) -> Option<int> {
    let total = stats.repository_size * 9 + stats.job_artifacts_size + stats.packages_size;
    let savable_repo = if stats.repository_size > REPO_SAVABLE_LIMIT {
        stats.repository_size - REPO_SAVABLE_LIMIT
    } else {
        0
    };
    if total == 0 {
        None
    } else {
        Some(((savable_repo * 9 + jobs + packages) * 100) / total)
    }
}

/// Impact tier of a footprint.
pub open spec fn impact_tier(n: int) -> Seq<char> {
    if n < 100 * 1024 * 1024 {
        "XS"@
    } else if n < 500 * 1024 * 1024 {
        "S"@
    } else if n < 3 * 1024 * 1024 * 1024 {
        "M"@
    } else if n < 10 * 1024 * 1024 * 1024 {
        "L"@
    } else {
        "XL"@
    }
}

/// Rating tier of a reclaimable share.
pub open spec fn rating_tier(n: int) -> Seq<char> {
    if n < 10 {
        "A"@
    } else if n < 25 {
        "B"@
    } else if n < 50 {
        "C"@
    } else if n < 90 {
        "D"@
    } else {
        "E"@
    }
}

/// The impact tier of a footprint figure.
pub fn impact_acronym(n: u64) -> (r: &'static str)
    ensures
        r@ == impact_tier(n as int),
{
    if n < 100 * 1024 * 1024 {
        "XS"
    } else if n < 500 * 1024 * 1024 {
        "S"
    } else if n < 3 * 1024 * 1024 * 1024 {
        "M"
    } else if n < 10 * 1024 * 1024 * 1024 {
        "L"
    } else {
        "XL"
    }
}

/// The rating tier of a reclaimable share.
pub fn rating_acronym(n: u64) -> (r: &'static str)
    ensures
        r@ == rating_tier(n as int),
{
    if n < 10 {
        "A"
    } else if n < 25 {
        "B"
    } else if n < 50 {
        "C"
    } else if n < 90 {
        "D"
    } else {
        "E"
    }
}

impl AnalysisReport {
    /// Sets the rating (none when the weighted storage is zero) and the
    /// impact tiers from the figures.
    pub fn compute_values(&mut self)
        ensures
            final(self).url == old(self).url,
            final(self).stats == old(self).stats,
            final(self).savable_bytes_jobs == old(self).savable_bytes_jobs,
            final(self).savable_bytes_packages == old(self).savable_bytes_packages,
            final(self).savable_bytes_containers == old(self).savable_bytes_containers,
            match rating_number(old(self).stats, old(self).savable_bytes_jobs, old(self).savable_bytes_packages) {
                Some(n) => final(self).rating is Some && final(self).rating.unwrap()@ == rating_tier(n),
                None => final(self).rating is None,
            },
            final(self).impact is Some,
            final(self).impact.unwrap()@ == impact_tier(impact_number(old(self).stats)),
    {
        let rating_number = self._get_rating();
        self.rating = match rating_number {
            Some(n) => Some(rating_acronym(n)),
            None => None,
        };
        let impact_number = self._get_impact();
        self.impact = Some(impact_acronym(impact_number));
    }

    /// The storage footprint, saturated at the largest `u64`.
    pub fn _get_impact(&self) -> (r: u64)
        ensures
            r == cap_u64(impact_number(self.stats)),
    {
        let n: u128 = (self.stats.repository_size as u128) * 9 + (self.stats.storage_size as u128);
        if n > u64::MAX as u128 {
            u64::MAX
        } else {
            n as u64
        }
    }

    /// The reclaimable share of the weighted storage in percent, saturated
    /// at the largest `u64`; nothing when the weighted storage is zero.
    pub fn _get_rating(&self) -> (r: Option<u64>)
        ensures
            match rating_number(self.stats, self.savable_bytes_jobs, self.savable_bytes_packages) {
                Some(n) => r == Some(cap_u64(n) as u64),
                None => r is None,
            },
    {
        let repo = self.stats.repository_size;
        let savable_repo: u64 = if repo > REPO_SAVABLE_LIMIT { repo - REPO_SAVABLE_LIMIT } else { 0 };
        let total: u128 = (repo as u128) * 9 + (self.stats.job_artifacts_size as u128)
            + (self.stats.packages_size as u128);
        if total == 0 {
            return None;
        }
        let savable: u128 = (savable_repo as u128) * 9 + (self.savable_bytes_jobs as u128)
            + (self.savable_bytes_packages as u128);
        let n: u128 = (savable * 100) / total;
        if n > u64::MAX as u128 {
            Some(u64::MAX)
        } else {
            Some(n as u64)
        }
    }
}

} // verus!
