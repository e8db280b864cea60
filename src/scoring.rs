//! Health scoring algorithms for dependencies.
//!
//! Every component score is a whole number in 0..=100; the overall score is
//! their weighted sum (weights in thousandths), rounded half up and capped.
use vstd::prelude::*;
use crate::config::{AuditConfig, ScoringWeights, StalenessThresholds};
use crate::metadata::{CrateMetadata, GitHubMetadata, GitLabMetadata};
use crate::types::{ComponentScores, DependencyMetrics, HealthStatus, RepositoryMetrics};

verus! {

/// Seconds in a day.
pub const SECONDS_PER_DAY: i64 = 86400;

/// Whole days from `then` to `now`: 0 when `then` is not in the past.
pub open spec fn age_days(now: int, then: int) -> int {
    if then >= now {
        0
    } else {
        (now - then) / SECONDS_PER_DAY as int
    }
}

/// The age in days as recorded in metrics: capped at `u32::MAX`.
pub open spec fn days_since(now: int, then: int) -> int {
    if age_days(now, then) > u32::MAX {
        u32::MAX as int
    } else {
        age_days(now, then)
    }
}

/// Whole days from `then` to `now`.
pub fn age_in_days(now: i64, then: i64) -> (r: u64)
    ensures
        r == age_days(now as int, then as int),
{
    if then >= now {
        return 0;
    }
    let diff: i128 = now as i128 - then as i128;
    (diff / (SECONDS_PER_DAY as i128)) as u64
}

/// Whole days from `then` to `now`, capped at `u32::MAX`.
pub fn days_between(now: i64, then: i64) -> (r: u32)
    ensures
        r == days_since(now as int, then as int),
{
    let days = age_in_days(now, then);
    if days > u32::MAX as u64 {
        u32::MAX
    } else {
        days as u32
    }
}

/// The most authoritative time of last activity: the first host's last push,
/// else the second host's last activity, else the registry's last update.
pub open spec fn last_activity(
    crate_meta: Option<&CrateMetadata>,
    github_meta: Option<&GitHubMetadata>,
    gitlab_meta: Option<&GitLabMetadata>,
) -> Option<i64> {
    if let Some(gh) = github_meta {
        Some(gh.pushed_at)
    } else if let Some(gl) = gitlab_meta {
        Some(gl.last_activity_at)
    } else if let Some(cr) = crate_meta {
        Some(cr.updated_at)
    } else {
        None
    }
}

/// The recency staircase over an age in days.
pub open spec fn recency_for_age(days: int, th: StalenessThresholds) -> u32 {
    if days <= 30 {
        100
    } else if days <= 90 {
        90
    } else if days <= 180 {
        80
    } else if days <= th.stale_days as u64 {
        60
    } else if days <= th.risky_days as u64 {
        30
    } else {
        10
    }
}

/// The recency sub-score: 0 without any activity date.
pub open spec fn recency_score(
    crate_meta: Option<&CrateMetadata>,
    github_meta: Option<&GitHubMetadata>,
    gitlab_meta: Option<&GitLabMetadata>,
    now: i64,
    th: StalenessThresholds,
) -> u32 {
    match last_activity(crate_meta, github_meta, gitlab_meta) {
        None => 0,
        Some(t) => recency_for_age(age_days(now as int, t as int), th),
    }
}

/// The change that an open-issue count makes to the maintenance base.
pub open spec fn issue_delta(open_issues: int) -> int {
    if open_issues < 10 {
        25
    } else if open_issues < 50 {
        10
    } else if open_issues > 200 {
        -10
    } else {
        0
    }
}

/// The change that the age of the last push makes to the maintenance base.
pub open spec fn push_delta(days: int) -> int {
    if days <= 30 {
        25
    } else if days <= 90 {
        15
    } else if days > 365 {
        -20
    } else {
        0
    }
}

/// `v` clamped to 0..=100.
pub open spec fn clamp100(v: int) -> u32 {
    if v < 0 {
        0
    } else if v > 100 {
        100
    } else {
        v as u32
    }
}

/// Maintenance of one repository: 0 when archived, else 50 moved by issues and activity.
pub open spec fn repo_maintenance(archived: bool, open_issues: int, days: int) -> u32 {
    if archived {
        0
    } else {
        clamp100(50 + issue_delta(open_issues) + push_delta(days))
    }
}

/// The maintenance sub-score: from the first host, else the second, else a flat 50.
pub open spec fn maintenance_score(
    github_meta: Option<&GitHubMetadata>,
    gitlab_meta: Option<&GitLabMetadata>,
    now: i64,
) -> u32 {
    if let Some(gh) = github_meta {
        repo_maintenance(gh.is_archived, gh.open_issues as int, age_days(now as int, gh.pushed_at as int))
    } else if let Some(gl) = gitlab_meta {
        repo_maintenance(
            gl.is_archived,
            gl.open_issues as int,
            age_days(now as int, gl.last_activity_at as int),
        )
    } else {
        50
    }
}

pub open spec fn author_points(n: int) -> int {
    if n <= 0 {
        0
    } else if n == 1 {
        30
    } else if n <= 5 {
        50
    } else if n <= 10 {
        70
    } else {
        80
    }
}

pub open spec fn star_points(n: int) -> int {
    if n <= 10 {
        0
    } else if n <= 50 {
        10
    } else if n <= 200 {
        20
    } else if n <= 1000 {
        30
    } else {
        40
    }
}

pub open spec fn contributor_points(n: int) -> int {
    if n <= 1 {
        0
    } else if n <= 5 {
        10
    } else if n <= 20 {
        20
    } else {
        30
    }
}

/// The community sub-score: author, star and contributor buckets, capped at 100.
pub open spec fn community_score(
    crate_meta: Option<&CrateMetadata>,
    github_meta: Option<&GitHubMetadata>,
    gitlab_meta: Option<&GitLabMetadata>,
) -> u32 {
    let authors = match crate_meta {
        Some(c) => author_points(c.authors@.len() as int),
        None => 0,
    };
    let repo = if let Some(gh) = github_meta {
        star_points(gh.stars as int) + match gh.contributors_count {
            Some(n) => contributor_points(n as int),
            None => 0,
        }
    } else if let Some(gl) = gitlab_meta {
        star_points(gl.stars as int)
    } else {
        0
    };
    clamp100(authors + repo)
}

pub open spec fn version_points(n: int) -> int {
    if n <= 1 {
        20
    } else if n <= 5 {
        40
    } else if n <= 10 {
        60
    } else if n <= 30 {
        80
    } else {
        100
    }
}

pub open spec fn download_bonus(n: int) -> int {
    if n > 1_000_000 {
        10
    } else if n > 100_000 {
        5
    } else {
        0
    }
}

/// The stability sub-score: version history and downloads, or a flat 50 without registry data.
pub open spec fn stability_score(crate_meta: Option<&CrateMetadata>) -> u32 {
    match crate_meta {
        Some(c) => clamp100(version_points(c.version_count as int) + download_bonus(c.downloads as int)),
        None => 50,
    }
}

/// The registry marks the package version as withdrawn.
pub open spec fn is_yanked(crate_meta: Option<&CrateMetadata>) -> bool {
    crate_meta matches Some(c) && c.is_yanked
}

/// The security sub-score: 0 for a withdrawn version; else the scorecard rating
/// (tenths of a point, so already scaled by ten) capped at 100; else 50 moved by
/// the presence (+20) or absence (-10) of a security policy.
pub open spec fn security_score(
    crate_meta: Option<&CrateMetadata>,
    github_meta: Option<&GitHubMetadata>,
    openssf_score: Option<u32>,
) -> u32 {
    if is_yanked(crate_meta) {
        0
    } else if let Some(s) = openssf_score {
        clamp100(s as int)
    } else {
        let policy = match github_meta {
            Some(gh) => match gh.has_security_policy {
                Some(true) => 20,
                Some(false) => -10,
                None => 0,
            },
            None => 0,
        };
        clamp100(50 + policy)
    }
}

/// All five component scores.
pub open spec fn component_scores(
    crate_meta: Option<&CrateMetadata>,
    github_meta: Option<&GitHubMetadata>,
    gitlab_meta: Option<&GitLabMetadata>,
    openssf_score: Option<u32>,
    now: i64,
    th: StalenessThresholds,
) -> ComponentScores {
    ComponentScores {
        recency: recency_score(crate_meta, github_meta, gitlab_meta, now, th),
        maintenance: maintenance_score(github_meta, gitlab_meta, now),
        community: community_score(crate_meta, github_meta, gitlab_meta),
        stability: stability_score(crate_meta),
        security: security_score(crate_meta, github_meta, openssf_score),
    }
}

/// The weighted sum of the component scores, in thousandths of a point.
pub open spec fn weighted_sum(s: ComponentScores, w: ScoringWeights) -> int {
    s.recency * w.recency + s.maintenance * w.maintenance + s.community * w.community
        + s.stability * w.stability + s.security * w.security
}

/// The overall score: the weighted sum rounded half up and capped at 100; for a
/// withdrawn version a tenth of the weighted sum, rounded half up and capped at 10.
pub open spec fn overall_score(s: ComponentScores, w: ScoringWeights, yanked: bool) -> int {
    if yanked {
        let v = (weighted_sum(s, w) + 5000) / 10000;
        if v > 10 {
            10
        } else {
            v
        }
    } else {
        let v = (weighted_sum(s, w) + 500) / 1000;
        if v > 100 {
            100
        } else {
            v
        }
    }
}

/// Status tier from a score: at least 80 Healthy, 60 Warning, 40 Stale, else Risky.
pub open spec fn status_for(score: int) -> HealthStatus {
    if score >= 80 {
        HealthStatus::Healthy
    } else if score >= 60 {
        HealthStatus::Warning
    } else if score >= 40 {
        HealthStatus::Stale
    } else {
        HealthStatus::Risky
    }
}

/// Determine the health status from a score. The thresholds are fixed.
pub fn determine_status(score: u8, _config: &AuditConfig) -> (r: HealthStatus)
    ensures
        r == status_for(score as int),
{
    if score >= 80 {
        HealthStatus::Healthy
    } else if score >= 60 {
        HealthStatus::Warning
    } else if score >= 40 {
        HealthStatus::Stale
    } else {
        HealthStatus::Risky
    }
}

fn clamp_score(v: i64) -> (r: u32)
    ensures
        r == clamp100(v as int),
{
    if v < 0 {
        0
    } else if v > 100 {
        100
    } else {
        v as u32
    }
}

fn recency_for_days(days: u64, th: &StalenessThresholds) -> (r: u32)
    ensures
        r == recency_for_age(days as int, *th),
{
    if days <= 30 {
        100
    } else if days <= 90 {
        90
    } else if days <= 180 {
        80
    } else if days <= th.stale_days as u64 {
        60
    } else if days <= th.risky_days as u64 {
        30
    } else {
        10
    }
}

/// Calculate the recency score from the latest activity date.
pub fn calculate_recency_score(
    crate_meta: Option<&CrateMetadata>,
    github_meta: Option<&GitHubMetadata>,
    gitlab_meta: Option<&GitLabMetadata>,
    now: i64,
    config: &AuditConfig,
) -> (r: u32)
    ensures
        r == recency_score(crate_meta, github_meta, gitlab_meta, now, config.staleness_thresholds),
{
    let last_update = if let Some(gh) = github_meta {
        gh.pushed_at
    } else if let Some(gl) = gitlab_meta {
        gl.last_activity_at
    } else if let Some(cr) = crate_meta {
        cr.updated_at
    } else {
        return 0;
    };
    recency_for_days(age_in_days(now, last_update), &config.staleness_thresholds)
}

fn repo_maintenance_score(archived: bool, open_issues: u32, days: u64) -> (r: u32)
    ensures
        r == repo_maintenance(archived, open_issues as int, days as int),
{
    if archived {
        return 0;
    }
    let mut score: i64 = 50;
    if open_issues < 10 {
        score = score + 25;
    } else if open_issues < 50 {
        score = score + 10;
    } else if open_issues > 200 {
        score = score - 10;
    }
    if days <= 30 {
        score = score + 25;
    } else if days <= 90 {
        score = score + 15;
    } else if days > 365 {
        score = score - 20;
    }
    clamp_score(score)
}

/// Calculate the maintenance score from repository activity.
pub fn calculate_maintenance_score(
    github_meta: Option<&GitHubMetadata>,
    gitlab_meta: Option<&GitLabMetadata>,
    now: i64,
) -> (r: u32)
    ensures
        r == maintenance_score(github_meta, gitlab_meta, now),
{
    if let Some(gh) = github_meta {
        repo_maintenance_score(gh.is_archived, gh.open_issues, age_in_days(now, gh.pushed_at))
    } else if let Some(gl) = gitlab_meta {
        repo_maintenance_score(
            gl.is_archived,
            gl.open_issues,
            age_in_days(now, gl.last_activity_at),
        )
    } else {
        50
    }
}

fn star_bucket(stars: u32) -> (r: i64)
    ensures
        r == star_points(stars as int),
{
    if stars <= 10 {
        0
    } else if stars <= 50 {
        10
    } else if stars <= 200 {
        20
    } else if stars <= 1000 {
        30
    } else {
        40
    }
}

/// Calculate the community score from authors, stars and contributors.
pub fn calculate_community_score(
    crate_meta: Option<&CrateMetadata>,
    github_meta: Option<&GitHubMetadata>,
    gitlab_meta: Option<&GitLabMetadata>,
) -> (r: u32)
    ensures
        r == community_score(crate_meta, github_meta, gitlab_meta),
{
    let mut score: i64 = 0;
    if let Some(c) = crate_meta {
        let n = c.authors.len();
        score = if n == 0 {
            0
        } else if n == 1 {
            30
        } else if n <= 5 {
            50
        } else if n <= 10 {
            70
        } else {
            80
        };
    }
    if let Some(gh) = github_meta {
        score = score + star_bucket(gh.stars);
        if let Some(n) = gh.contributors_count {
            score = score + if n <= 1 {
                0
            } else if n <= 5 {
                10
            } else if n <= 20 {
                20
            } else {
                30
            };
        }
    } else if let Some(gl) = gitlab_meta {
        score = score + star_bucket(gl.stars);
    }
    clamp_score(score)
}

/// Calculate the stability score from version history and downloads.
pub fn calculate_stability_score(crate_meta: Option<&CrateMetadata>) -> (r: u32)
    ensures
        r == stability_score(crate_meta),
{
    if let Some(c) = crate_meta {
        let n = c.version_count;
        let base: i64 = if n <= 1 {
            20
        } else if n <= 5 {
            40
        } else if n <= 10 {
            60
        } else if n <= 30 {
            80
        } else {
            100
        };
        let bonus: i64 = if c.downloads > 1_000_000 {
            10
        } else if c.downloads > 100_000 {
            5
        } else {
            0
        };
        clamp_score(base + bonus)
    } else {
        50
    }
}

/// Calculate the security score from a scorecard rating or repository policy.
pub fn calculate_security_score(
    crate_meta: Option<&CrateMetadata>,
    github_meta: Option<&GitHubMetadata>,
    openssf_score: Option<u32>,
) -> (r: u32)
    ensures
        r == security_score(crate_meta, github_meta, openssf_score),
{
    if let Some(c) = crate_meta {
        if c.is_yanked {
            return 0;
        }
    }
    if let Some(s) = openssf_score {
        return if s > 100 {
            100
        } else {
            s
        };
    }
    let mut score: i64 = 50;
    if let Some(gh) = github_meta {
        if let Some(has_policy) = gh.has_security_policy {
            if has_policy {
                score = score + 20;
            } else {
                score = score - 10;
            }
        }
    }
    clamp_score(score)
}

/// The weighted overall score of a set of component scores.
pub fn combine_scores(scores: &ComponentScores, weights: &ScoringWeights, yanked: bool) -> (r: u8)
    requires
        scores.wf(),
    ensures
        r == overall_score(*scores, *weights, yanked),
{
    let s = scores;
    let w = weights;
    proof {
        lemma_weighted_sum_fits(*s, *w);
    }
    let total: u64 = s.recency as u64 * w.recency as u64 + s.maintenance as u64
        * w.maintenance as u64 + s.community as u64 * w.community as u64 + s.stability as u64
        * w.stability as u64 + s.security as u64 * w.security as u64;
    if yanked {
        let v = (total + 5000) / 10000;
        if v > 10 {
            10
        } else {
            v as u8
        }
    } else {
        let v = (total + 500) / 1000;
        if v > 100 {
            100
        } else {
            v as u8
        }
    }
}

proof fn lemma_weighted_sum_fits(s: ComponentScores, w: ScoringWeights)
    requires
        s.wf(),
    ensures
        0 <= weighted_sum(s, w) <= 500 * u32::MAX,
        s.recency * w.recency <= 100 * u32::MAX,
        s.maintenance * w.maintenance <= 100 * u32::MAX,
        s.community * w.community <= 100 * u32::MAX,
        s.stability * w.stability <= 100 * u32::MAX,
        s.security * w.security <= 100 * u32::MAX,
{
    assert forall|a: int, b: int| 0 <= a <= 100 && 0 <= b <= u32::MAX implies 0 <= #[trigger] (a
        * b) <= 100 * u32::MAX by {
        assert(0 <= a * b <= 100 * u32::MAX) by (nonlinear_arith)
            requires
                0 <= a <= 100,
                0 <= b <= u32::MAX,
        ;
    }
}

/// The metrics recorded beside the scores.
pub open spec fn metrics_of(
    crate_meta: Option<&CrateMetadata>,
    github_meta: Option<&GitHubMetadata>,
    gitlab_meta: Option<&GitLabMetadata>,
    openssf_score: Option<u32>,
    now: i64,
    scores: ComponentScores,
) -> DependencyMetrics {
    DependencyMetrics {
        days_since_last_update: match last_activity(crate_meta, github_meta, gitlab_meta) {
            Some(t) => Some(days_since(now as int, t as int) as u32),
            None => None,
        },
        version_count: match crate_meta {
            Some(c) => Some(c.version_count),
            None => None,
        },
        maintainer_count: match crate_meta {
            Some(c) => Some(
                if c.authors@.len() > u32::MAX {
                    u32::MAX
                } else {
                    c.authors@.len() as u32
                },
            ),
            None => None,
        },
        repository: if let Some(gh) = github_meta {
            Some(
                RepositoryMetrics {
                    open_issues: Some(gh.open_issues),
                    contributor_count: gh.contributors_count,
                    days_since_last_commit: Some(days_since(now as int, gh.pushed_at as int) as u32),
                    stars: Some(gh.stars),
                    is_archived: Some(gh.is_archived),
                    has_security_policy: gh.has_security_policy,
                },
            )
        } else if let Some(gl) = gitlab_meta {
            Some(
                RepositoryMetrics {
                    open_issues: Some(gl.open_issues),
                    contributor_count: None,
                    days_since_last_commit: Some(
                        days_since(now as int, gl.last_activity_at as int) as u32,
                    ),
                    stars: Some(gl.stars),
                    is_archived: Some(gl.is_archived),
                    has_security_policy: None,
                },
            )
        } else {
            None
        },
        openssf_score,
        scores,
    }
}

/// Build the detailed metrics record.
fn build_metrics(
    crate_meta: Option<&CrateMetadata>,
    github_meta: Option<&GitHubMetadata>,
    gitlab_meta: Option<&GitLabMetadata>,
    openssf_score: Option<u32>,
    now: i64,
    scores: &ComponentScores,
) -> (r: DependencyMetrics)
    ensures
        r == metrics_of(crate_meta, github_meta, gitlab_meta, openssf_score, now, *scores),
{
    let days_since_last_update = if let Some(gh) = github_meta {
        Some(days_between(now, gh.pushed_at))
    } else if let Some(gl) = gitlab_meta {
        Some(days_between(now, gl.last_activity_at))
    } else if let Some(cr) = crate_meta {
        Some(days_between(now, cr.updated_at))
    } else {
        None
    };
    let repository = if let Some(gh) = github_meta {
        Some(
            RepositoryMetrics {
                open_issues: Some(gh.open_issues),
                contributor_count: gh.contributors_count,
                days_since_last_commit: Some(days_between(now, gh.pushed_at)),
                stars: Some(gh.stars),
                is_archived: Some(gh.is_archived),
                has_security_policy: gh.has_security_policy,
            },
        )
    } else if let Some(gl) = gitlab_meta {
        Some(
            RepositoryMetrics {
                open_issues: Some(gl.open_issues),
                contributor_count: None,
                days_since_last_commit: Some(days_between(now, gl.last_activity_at)),
                stars: Some(gl.stars),
                is_archived: Some(gl.is_archived),
                has_security_policy: None,
            },
        )
    } else {
        None
    };
    let (version_count, maintainer_count) = match crate_meta {
        Some(c) => {
            let n = c.authors.len();
            (Some(c.version_count), Some(
                if n > u32::MAX as usize {
                    u32::MAX
                } else {
                    n as u32
                },
            ))
        },
        None => (None, None),
    };
    DependencyMetrics {
        days_since_last_update,
        version_count,
        maintainer_count,
        repository,
        openssf_score,
        scores: *scores,
    }
}

/// Calculate the overall health score of a dependency at time `now` (seconds
/// since the Unix epoch) from whichever metadata is present, with its component
/// scores and metrics.
pub fn calculate_health_score(
    crate_meta: Option<&CrateMetadata>,
    github_meta: Option<&GitHubMetadata>,
    gitlab_meta: Option<&GitLabMetadata>,
    openssf_score: Option<u32>,
    now: i64,
    config: &AuditConfig,
) -> (r: (u8, ComponentScores, Option<DependencyMetrics>))
    ensures
        r.1 == component_scores(
            crate_meta,
            github_meta,
            gitlab_meta,
            openssf_score,
            now,
            config.staleness_thresholds,
        ),
        r.1.wf(),
        r.0 == overall_score(r.1, config.scoring_weights, is_yanked(crate_meta)),
        r.2 == Some(metrics_of(crate_meta, github_meta, gitlab_meta, openssf_score, now, r.1)),
{
    let scores = ComponentScores {
        recency: calculate_recency_score(crate_meta, github_meta, gitlab_meta, now, config),
        maintenance: calculate_maintenance_score(github_meta, gitlab_meta, now),
        community: calculate_community_score(crate_meta, github_meta, gitlab_meta),
        stability: calculate_stability_score(crate_meta),
        security: calculate_security_score(crate_meta, github_meta, openssf_score),
    };
    let yanked = match crate_meta {
        Some(c) => c.is_yanked,
        None => false,
    };
    let overall = combine_scores(&scores, &config.scoring_weights, yanked);
    let metrics = build_metrics(crate_meta, github_meta, gitlab_meta, openssf_score, now, &scores);
    (overall, scores, Some(metrics))
}

/// The overall health score lies in 0..=100 whichever metadata is present or
/// absent, for weights that sum to 1.0.
pub proof fn lemma_health_score_bounded(
    crate_meta: Option<&CrateMetadata>,
    github_meta: Option<&GitHubMetadata>,
    gitlab_meta: Option<&GitLabMetadata>,
    openssf_score: Option<u32>,
    now: i64,
    config: AuditConfig,
)
    requires
        config.scoring_weights.sums_to_one(),
    ensures
        0 <= overall_score(
            component_scores(
                crate_meta,
                github_meta,
                gitlab_meta,
                openssf_score,
                now,
                config.staleness_thresholds,
            ),
            config.scoring_weights,
            is_yanked(crate_meta),
        ) <= 100,
{
    let s = component_scores(
        crate_meta,
        github_meta,
        gitlab_meta,
        openssf_score,
        now,
        config.staleness_thresholds,
    );
    lemma_weighted_sum_fits(s, config.scoring_weights);
}

/// A withdrawn registry version never scores above 10.
pub proof fn lemma_yanked_score_capped(
    crate_meta: Option<&CrateMetadata>,
    github_meta: Option<&GitHubMetadata>,
    gitlab_meta: Option<&GitLabMetadata>,
    openssf_score: Option<u32>,
    now: i64,
    config: AuditConfig,
)
    requires
        is_yanked(crate_meta),
    ensures
        overall_score(
            component_scores(
                crate_meta,
                github_meta,
                gitlab_meta,
                openssf_score,
                now,
                config.staleness_thresholds,
            ),
            config.scoring_weights,
            true,
        ) <= 10,
{
}

/// An archived repository has a maintenance score of exactly 0, whatever its
/// issue count and activity.
pub proof fn lemma_archived_maintenance_zero(
    github_meta: Option<&GitHubMetadata>,
    gitlab_meta: Option<&GitLabMetadata>,
    now: i64,
)
    requires
        github_meta matches Some(gh) ==> gh.is_archived,
        github_meta is None ==> (gitlab_meta matches Some(gl) && gl.is_archived),
    ensures
        maintenance_score(github_meta, gitlab_meta, now) == 0,
{
}

} // verus!
