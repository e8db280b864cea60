//! Core data types for dependency health reporting.
//!
//! Scores are whole numbers on a 0-100 scale. Fractions are held as integers:
//! a footprint risk in hundredths (0-100 stands for 0.0-1.0) and the average
//! health score of a summary in hundredths of a point.
use vstd::prelude::*;

verus! {

/// Health status categories.
#[derive(Clone, Copy, Debug, PartialEq, Eq, Structural)]
pub enum HealthStatus {
    /// Actively maintained, good community support.
    Healthy,
    /// Some concerns but generally okay.
    Warning,
    /// Not updated recently, limited activity.
    Stale,
    /// Deprecated, unmaintained, or high risk.
    Risky,
}

impl HealthStatus {
    /// The display name of the status.
    pub fn as_str(&self) -> (r: &'static str)
        ensures
            r@ == self.name(),
    {
        match self {
            HealthStatus::Healthy => "Healthy",
            HealthStatus::Warning => "Warning",
            HealthStatus::Stale => "Stale",
            HealthStatus::Risky => "Risky",
        }
    }

    pub open spec fn name(&self) -> Seq<char> {
        match self {
            HealthStatus::Healthy => "Healthy"@,
            HealthStatus::Warning => "Warning"@,
            HealthStatus::Stale => "Stale"@,
            HealthStatus::Risky => "Risky"@,
        }
    }
}

/// License risk categorization.
#[derive(Clone, Copy, Debug, PartialEq, Eq, Structural)]
pub enum LicenseRisk {
    /// Permissive licenses (MIT, Apache, BSD, ...).
    Permissive,
    /// Copyleft licenses (GPL, LGPL, AGPL, ...).
    Copyleft,
    /// Proprietary or restrictive licenses.
    Proprietary,
    /// License not found or not recognized.
    Unknown,
}

impl LicenseRisk {
    /// The display name of the tier.
    pub fn as_str(&self) -> (r: &'static str)
        ensures
            r@ == self.name(),
    {
        match self {
            LicenseRisk::Permissive => "Permissive",
            LicenseRisk::Copyleft => "Copyleft",
            LicenseRisk::Proprietary => "Proprietary",
            LicenseRisk::Unknown => "Unknown",
        }
    }

    pub open spec fn name(&self) -> Seq<char> {
        match self {
            LicenseRisk::Permissive => "Permissive"@,
            LicenseRisk::Copyleft => "Copyleft"@,
            LicenseRisk::Proprietary => "Proprietary"@,
            LicenseRisk::Unknown => "Unknown"@,
        }
    }

    /// The tier counts as a license issue in a summary.
    pub open spec fn is_issue(&self) -> bool {
        !(*self is Permissive)
    }
}

/// Source of a dependency.
#[derive(Clone, Debug)]
pub enum DependencySource {
    /// From the package registry.
    CratesIo,
    /// From a git repository.
    Git { url: String },
    /// From a local path.
    Path { path: String },
    /// Unknown source.
    Unknown,
}

/// Individual component scores, each on a 0-100 scale.
#[derive(Clone, Copy, Debug, PartialEq, Eq, Structural)]
pub struct ComponentScores {
    /// Score based on recency of updates.
    pub recency: u32,
    /// Score based on maintenance activity.
    pub maintenance: u32,
    /// Score based on community size and engagement.
    pub community: u32,
    /// Score based on version stability.
    pub stability: u32,
    /// Score based on security posture.
    pub security: u32,
}

impl ComponentScores {
    /// Every component lies in 0..=100.
    pub open spec fn wf(&self) -> bool {
        &&& self.recency <= 100
        &&& self.maintenance <= 100
        &&& self.community <= 100
        &&& self.stability <= 100
        &&& self.security <= 100
    }
}

/// Repository-specific metrics.
#[derive(Clone, Copy, Debug, PartialEq, Eq, Structural)]
pub struct RepositoryMetrics {
    /// Number of open issues.
    pub open_issues: Option<u32>,
    /// Number of contributors.
    pub contributor_count: Option<u32>,
    /// Days since last commit.
    pub days_since_last_commit: Option<u32>,
    /// Number of stars.
    pub stars: Option<u32>,
    /// Whether the repository is archived.
    pub is_archived: Option<bool>,
    /// Whether the repository declares a security policy.
    pub has_security_policy: Option<bool>,
}

/// Detailed metrics used for health scoring.
#[derive(Clone, Copy, Debug, PartialEq, Eq, Structural)]
pub struct DependencyMetrics {
    /// Days since last publish or commit.
    pub days_since_last_update: Option<u32>,
    /// Number of published versions.
    pub version_count: Option<u32>,
    /// Number of authors or maintainers.
    pub maintainer_count: Option<u32>,
    /// Repository metrics, when a repository was found.
    pub repository: Option<RepositoryMetrics>,
    /// External scorecard rating in tenths of a point (0-100 stands for 0.0-10.0).
    pub openssf_score: Option<u32>,
    /// Individual component scores.
    pub scores: ComponentScores,
}

/// Health information for a single dependency.
#[derive(Clone, Debug)]
pub struct DependencyHealth {
    /// Package name.
    pub name: String,
    /// Version.
    pub version: String,
    /// Whether this is a direct dependency (vs transitive).
    pub is_direct: bool,
    /// Overall health score (0-100).
    pub health_score: u8,
    /// Health status category.
    pub status: HealthStatus,
    /// License expression, when known.
    pub license: Option<String>,
    /// License risk tier.
    pub license_risk: LicenseRisk,
    /// Footprint risk in hundredths (0-100), when graph data was available.
    pub footprint_risk: Option<u32>,
    /// Source of the dependency.
    pub source: DependencySource,
    /// Detailed metrics used for scoring.
    pub metrics: Option<DependencyMetrics>,
    /// Warnings and issues, in the order they were found.
    pub warnings: Vec<String>,
    /// Whether the registry marks this version as withdrawn.
    pub is_yanked: bool,
}

/// Summary statistics for an audit report.
#[derive(Clone, Copy, Debug, PartialEq, Eq, Structural)]
pub struct AuditSummary {
    pub total_dependencies: usize,
    pub healthy: usize,
    pub warning: usize,
    pub stale: usize,
    pub risky: usize,
    /// Mean health score in hundredths of a point, rounded down (0 when empty).
    pub average_health_score: u32,
    pub license_issues: usize,
    pub high_footprint_count: usize,
}

/// Footprint risks above this many hundredths count as high.
pub const HIGH_FOOTPRINT: u32 = 70;

/// The number of entries of `deps` that satisfy `f`.
pub open spec fn count_where(deps: Seq<DependencyHealth>, f: spec_fn(DependencyHealth) -> bool) -> nat
    decreases deps.len(),
{
    if deps.len() == 0 {
        0
    } else {
        count_where(deps.drop_last(), f) + if f(deps.last()) {
            1nat
        } else {
            0nat
        }
    }
}

/// The sum of the health scores of `deps`.
pub open spec fn score_sum(deps: Seq<DependencyHealth>) -> nat
    decreases deps.len(),
{
    if deps.len() == 0 {
        0
    } else {
        score_sum(deps.drop_last()) + deps.last().health_score as nat
    }
}

pub open spec fn has_status(s: HealthStatus) -> spec_fn(DependencyHealth) -> bool {
    |d: DependencyHealth| d.status == s
}

pub open spec fn has_license_issue() -> spec_fn(DependencyHealth) -> bool {
    |d: DependencyHealth| d.license_risk.is_issue()
}

pub open spec fn has_high_footprint() -> spec_fn(DependencyHealth) -> bool {
    |d: DependencyHealth| d.footprint_risk matches Some(f) && f > HIGH_FOOTPRINT
}

/// The mean of the scores of `deps` in hundredths, rounded down; 0 when empty.
pub open spec fn mean_hundredths(deps: Seq<DependencyHealth>) -> int {
    if deps.len() == 0 {
        0
    } else {
        (100 * score_sum(deps)) as int / deps.len() as int
    }
}

/// The summary that `deps` determines.
pub open spec fn summary_of(deps: Seq<DependencyHealth>) -> AuditSummary {
    AuditSummary {
        total_dependencies: deps.len() as usize,
        healthy: count_where(deps, has_status(HealthStatus::Healthy)) as usize,
        warning: count_where(deps, has_status(HealthStatus::Warning)) as usize,
        stale: count_where(deps, has_status(HealthStatus::Stale)) as usize,
        risky: count_where(deps, has_status(HealthStatus::Risky)) as usize,
        average_health_score: mean_hundredths(deps) as u32,
        license_issues: count_where(deps, has_license_issue()) as usize,
        high_footprint_count: count_where(deps, has_high_footprint()) as usize,
    }
}

/// A count never exceeds the number of entries.
pub proof fn lemma_count_where_bound(deps: Seq<DependencyHealth>, f: spec_fn(DependencyHealth) -> bool)
    ensures
        count_where(deps, f) <= deps.len(),
    decreases deps.len(),
{
    if deps.len() > 0 {
        lemma_count_where_bound(deps.drop_last(), f);
    }
}

/// A score sum is at most 255 per entry.
pub proof fn lemma_score_sum_bound(deps: Seq<DependencyHealth>)
    ensures
        score_sum(deps) <= 255 * deps.len(),
    decreases deps.len(),
{
    if deps.len() > 0 {
        lemma_score_sum_bound(deps.drop_last());
    }
}

/// The four status counts together cover every entry.
pub proof fn lemma_status_counts_cover(deps: Seq<DependencyHealth>)
    ensures
        count_where(deps, has_status(HealthStatus::Healthy)) + count_where(
            deps,
            has_status(HealthStatus::Warning),
        ) + count_where(deps, has_status(HealthStatus::Stale)) + count_where(
            deps,
            has_status(HealthStatus::Risky),
        ) == deps.len(),
    decreases deps.len(),
{
    if deps.len() > 0 {
        lemma_status_counts_cover(deps.drop_last());
    }
}

/// Complete audit report for a project.
#[derive(Clone, Debug)]
pub struct AuditReport {
    /// Name of the audited project.
    pub project_name: String,
    /// Path to the audited project.
    pub project_path: String,
    /// When the audit was performed, in seconds since the Unix epoch.
    pub timestamp: i64,
    /// Health information for all dependencies.
    pub dependencies: Vec<DependencyHealth>,
    /// Summary statistics.
    pub summary: AuditSummary,
}

impl AuditSummary {
    /// The summary of an empty report.
    pub fn empty() -> (r: AuditSummary)
        ensures
            r == summary_of(Seq::empty()),
    {
        AuditSummary {
            total_dependencies: 0,
            healthy: 0,
            warning: 0,
            stale: 0,
            risky: 0,
            average_health_score: 0,
            license_issues: 0,
            high_footprint_count: 0,
        }
    }
}

impl Default for AuditSummary {
    fn default() -> (r: AuditSummary)
        ensures
            r == summary_of(Seq::empty()),
    {
        AuditSummary::empty()
    }
}

impl AuditReport {
    /// A report on `project_name` at `project_path`, taken at `timestamp`, with no entries yet.
    pub fn new(project_name: String, project_path: String, timestamp: i64) -> (r: AuditReport)
        ensures
            r.project_name == project_name,
            r.project_path == project_path,
            r.timestamp == timestamp,
            r.dependencies@.len() == 0,
            r.summary == summary_of(Seq::empty()),
    {
        AuditReport {
            project_name,
            project_path,
            timestamp,
            dependencies: Vec::new(),
            summary: AuditSummary::empty(),
        }
    }

    /// Recompute the summary statistics from the dependency entries.
    pub fn compute_summary(&mut self)
        ensures
            final(self).summary == summary_of(old(self).dependencies@),
            final(self).dependencies == old(self).dependencies,
            final(self).project_name == old(self).project_name,
            final(self).project_path == old(self).project_path,
            final(self).timestamp == old(self).timestamp,
    {
        let total = self.dependencies.len();
        let mut healthy: usize = 0;
        let mut warning: usize = 0;
        let mut stale: usize = 0;
        let mut risky: usize = 0;
        let mut total_score: u128 = 0;
        let mut license_issues: usize = 0;
        let mut high_footprint: usize = 0;
        let ghost deps = self.dependencies@;
        let mut i: usize = 0;
        while i < total
            invariant
                total == deps.len(),
                deps == self.dependencies@,
                i <= total,
                healthy == count_where(deps.take(i as int), has_status(HealthStatus::Healthy)),
                warning == count_where(deps.take(i as int), has_status(HealthStatus::Warning)),
                stale == count_where(deps.take(i as int), has_status(HealthStatus::Stale)),
                risky == count_where(deps.take(i as int), has_status(HealthStatus::Risky)),
                total_score == score_sum(deps.take(i as int)),
                score_sum(deps.take(i as int)) <= 255 * i,
                license_issues == count_where(deps.take(i as int), has_license_issue()),
                high_footprint == count_where(deps.take(i as int), has_high_footprint()),
            decreases total - i,
        {
            let dep = &self.dependencies[i];
            proof {
                let t = deps.take(i as int + 1);
                assert(t.drop_last() =~= deps.take(i as int));
                assert(t.last() == deps[i as int]);
                lemma_count_where_bound(deps.take(i as int), has_status(HealthStatus::Healthy));
                lemma_count_where_bound(deps.take(i as int), has_status(HealthStatus::Warning));
                lemma_count_where_bound(deps.take(i as int), has_status(HealthStatus::Stale));
                lemma_count_where_bound(deps.take(i as int), has_status(HealthStatus::Risky));
                lemma_count_where_bound(deps.take(i as int), has_license_issue());
                lemma_count_where_bound(deps.take(i as int), has_high_footprint());
                lemma_score_sum_bound(deps.take(i as int));
            }
            match dep.status {
                HealthStatus::Healthy => healthy = healthy + 1,
                HealthStatus::Warning => warning = warning + 1,
                HealthStatus::Stale => stale = stale + 1,
                HealthStatus::Risky => risky = risky + 1,
            }
            assert(255 * i <= 255 * usize::MAX) by (nonlinear_arith)
                requires
                    i <= usize::MAX,
            ;
            total_score = total_score + dep.health_score as u128;
            match dep.license_risk {
                LicenseRisk::Permissive => {},
                _ => license_issues = license_issues + 1,
            }
            if let Some(footprint) = dep.footprint_risk {
                if footprint > HIGH_FOOTPRINT {
                    high_footprint = high_footprint + 1;
                }
            }
            i = i + 1;
        }
        proof {
            assert(deps.take(total as int) =~= deps);
            lemma_score_sum_bound(deps);
        }
        let average: u32 = if total > 0 {
            assert(100 * total_score <= 25500 * total) by (nonlinear_arith)
                requires
                    total_score <= 255 * total,
            ;
            let a = (100 * total_score) / (total as u128);
            assert(a <= 25500) by (nonlinear_arith)
                requires
                    a as int == (100 * total_score as int) / (total as int),
                    100 * total_score <= 25500 * total,
                    total > 0,
            ;
            a as u32
        } else {
            0
        };
        self.summary = AuditSummary {
            total_dependencies: total,
            healthy,
            warning,
            stale,
            risky,
            average_health_score: average,
            license_issues,
            high_footprint_count: high_footprint,
        };
    }
}

/// The summary's status counts add up to the number of dependencies, and its
/// average is the mean of all reported scores (0 when there are none).
pub proof fn lemma_summary_consistent(deps: Seq<DependencyHealth>)
    requires
        deps.len() <= usize::MAX,
    ensures
        summary_of(deps).healthy + summary_of(deps).warning + summary_of(deps).stale
            + summary_of(deps).risky == summary_of(deps).total_dependencies,
        summary_of(deps).total_dependencies == deps.len(),
        deps.len() == 0 ==> summary_of(deps).average_health_score == 0,
        deps.len() > 0 ==> summary_of(deps).average_health_score as int * deps.len() <= 100
            * score_sum(deps) < (summary_of(deps).average_health_score as int + 1) * deps.len(),
{
    lemma_status_counts_cover(deps);
    lemma_count_where_bound(deps, has_status(HealthStatus::Healthy));
    lemma_count_where_bound(deps, has_status(HealthStatus::Warning));
    lemma_count_where_bound(deps, has_status(HealthStatus::Stale));
    lemma_count_where_bound(deps, has_status(HealthStatus::Risky));
    if deps.len() > 0 {
        lemma_score_sum_bound(deps);
        let n = deps.len() as int;
        let s = 100 * score_sum(deps) as int;
        assert(s <= 25500 * n) by (nonlinear_arith)
            requires
                score_sum(deps) <= 255 * n,
                s == 100 * score_sum(deps) as int,
        ;
        assert(s / n <= 25500) by (nonlinear_arith)
            requires
                s <= 25500 * n,
                n > 0,
        ;
        assert((s / n) * n <= s < (s / n + 1) * n) by (nonlinear_arith)
            requires
                n > 0,
                s >= 0,
        ;
    }
}

} // verus!
