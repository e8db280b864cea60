use rust_secure_dependency_audit::scoring::{
    calculate_community_score, calculate_health_score, calculate_maintenance_score,
    calculate_recency_score, calculate_security_score, calculate_stability_score, combine_scores,
    days_between, determine_status,
};
use rust_secure_dependency_audit::{
    AuditConfig, ComponentScores, CrateMetadata, GitHubMetadata, GitLabMetadata, HealthStatus,
    ScoringWeights,
};

const NOW: i64 = 1_700_000_000;
const DAY: i64 = 86_400;

fn crate_meta(days_old: i64) -> CrateMetadata {
    CrateMetadata {
        name: "test".to_string(),
        version: "1.0.0".to_string(),
        description: None,
        license: None,
        repository: None,
        homepage: None,
        downloads: 1000,
        recent_downloads: None,
        created_at: NOW - 365 * DAY,
        updated_at: NOW - days_old * DAY,
        version_count: 10,
        authors: vec![],
        is_yanked: false,
    }
}

fn github(days_old: i64, open_issues: u32, archived: bool) -> GitHubMetadata {
    GitHubMetadata {
        name: "r".to_string(),
        full_name: "o/r".to_string(),
        description: None,
        stars: 500,
        forks: 3,
        open_issues,
        is_archived: archived,
        created_at: NOW - 1000 * DAY,
        updated_at: NOW - days_old * DAY,
        pushed_at: NOW - days_old * DAY,
        contributors_count: Some(12),
        has_security_policy: None,
    }
}

fn gitlab(days_old: i64, open_issues: u32, archived: bool) -> GitLabMetadata {
    GitLabMetadata {
        name: "p".to_string(),
        path_with_namespace: "g/p".to_string(),
        description: None,
        stars: 60,
        forks: 1,
        open_issues,
        is_archived: archived,
        created_at: NOW - 1000 * DAY,
        last_activity_at: NOW - days_old * DAY,
    }
}

#[test]
fn test_recency_score_recent() {
    let config = AuditConfig::default();
    let crate_meta = crate_meta(15);
    let score = calculate_recency_score(Some(&crate_meta), None, None, NOW, &config);
    assert!(score >= 90, "Recent update should score high");
}

#[test]
fn test_determine_status() {
    let config = AuditConfig::default();

    assert_eq!(determine_status(85, &config), HealthStatus::Healthy);
    assert_eq!(determine_status(65, &config), HealthStatus::Warning);
    assert_eq!(determine_status(45, &config), HealthStatus::Stale);
    assert_eq!(determine_status(25, &config), HealthStatus::Risky);
}

#[test]
fn status_thresholds_are_inclusive() {
    let config = AuditConfig::default();
    assert_eq!(determine_status(80, &config), HealthStatus::Healthy);
    assert_eq!(determine_status(79, &config), HealthStatus::Warning);
    assert_eq!(determine_status(60, &config), HealthStatus::Warning);
    assert_eq!(determine_status(40, &config), HealthStatus::Stale);
    assert_eq!(determine_status(39, &config), HealthStatus::Risky);
    assert_eq!(determine_status(0, &config), HealthStatus::Risky);
}

#[test]
fn recency_staircase() {
    let config = AuditConfig::default();
    let expect = [(10, 100), (30, 100), (31, 90), (90, 90), (100, 80), (200, 60), (365, 60), (400, 30), (730, 30), (731, 10)];
    for (days, score) in expect {
        let m = crate_meta(days);
        assert_eq!(calculate_recency_score(Some(&m), None, None, NOW, &config), score, "{} days", days);
    }
    assert_eq!(calculate_recency_score(None, None, None, NOW, &config), 0);
    let gh = github(5, 0, false);
    let old = crate_meta(1000);
    assert_eq!(calculate_recency_score(Some(&old), Some(&gh), None, NOW, &config), 100);
    let gl = gitlab(100, 0, false);
    assert_eq!(calculate_recency_score(Some(&old), None, Some(&gl), NOW, &config), 80);
}

#[test]
fn days_between_rounds_down_and_floors_at_zero() {
    assert_eq!(days_between(NOW, NOW - DAY - 5), 1);
    assert_eq!(days_between(NOW, NOW + 10 * DAY), 0);
    assert_eq!(days_between(i64::MAX, i64::MIN), u32::MAX);
}

#[test]
fn maintenance_scores() {
    assert_eq!(calculate_maintenance_score(None, None, NOW), 50);
    let gh = github(10, 5, false);
    assert_eq!(calculate_maintenance_score(Some(&gh), None, NOW), 100);
    let gh = github(60, 20, false);
    assert_eq!(calculate_maintenance_score(Some(&gh), None, NOW), 75);
    let gh = github(400, 300, false);
    assert_eq!(calculate_maintenance_score(Some(&gh), None, NOW), 20);
    let gl = gitlab(10, 5, false);
    assert_eq!(calculate_maintenance_score(None, Some(&gl), NOW), 100);
}

#[test]
fn archived_repository_has_no_maintenance() {
    let gh = github(1, 0, true);
    assert_eq!(calculate_maintenance_score(Some(&gh), None, NOW), 0);
    let gl = gitlab(1, 0, true);
    assert_eq!(calculate_maintenance_score(None, Some(&gl), NOW), 0);
}

#[test]
fn community_and_stability_scores() {
    let mut m = crate_meta(1);
    m.authors = vec!["a".to_string(), "b".to_string(), "c".to_string()];
    let gh = github(1, 0, false);
    assert_eq!(calculate_community_score(Some(&m), Some(&gh), None), 100);
    let gl = gitlab(1, 0, false);
    assert_eq!(calculate_community_score(Some(&m), None, Some(&gl)), 70);
    assert_eq!(calculate_community_score(None, None, None), 0);
    assert_eq!(calculate_stability_score(None), 50);
    m.version_count = 40;
    m.downloads = 2_000_000;
    assert_eq!(calculate_stability_score(Some(&m)), 100);
    m.version_count = 3;
    m.downloads = 200_000;
    assert_eq!(calculate_stability_score(Some(&m)), 45);
}

#[test]
fn security_scores() {
    let mut m = crate_meta(1);
    let mut gh = github(1, 0, false);
    assert_eq!(calculate_security_score(Some(&m), Some(&gh), None), 50);
    gh.has_security_policy = Some(true);
    assert_eq!(calculate_security_score(Some(&m), Some(&gh), None), 70);
    gh.has_security_policy = Some(false);
    assert_eq!(calculate_security_score(Some(&m), Some(&gh), None), 40);
    assert_eq!(calculate_security_score(Some(&m), Some(&gh), Some(73)), 73);
    assert_eq!(calculate_security_score(Some(&m), Some(&gh), Some(250)), 100);
    m.is_yanked = true;
    assert_eq!(calculate_security_score(Some(&m), Some(&gh), Some(90)), 0);
}

#[test]
fn weighted_sum_rounds_half_up() {
    let s = ComponentScores { recency: 100, maintenance: 75, community: 50, stability: 25, security: 0 };
    let w = ScoringWeights::default();
    assert_eq!(combine_scores(&s, &w, false), 75);
    let s = ComponentScores { recency: 1, maintenance: 1, community: 1, stability: 2, security: 0 };
    assert_eq!(combine_scores(&s, &w, false), 1);
    let s = ComponentScores { recency: 100, maintenance: 100, community: 100, stability: 100, security: 100 };
    assert_eq!(combine_scores(&s, &w, true), 10);
    let heavy = ScoringWeights { recency: u32::MAX, maintenance: u32::MAX, community: 0, stability: 0, security: 0 };
    assert_eq!(combine_scores(&s, &heavy, false), 100);
}

#[test]
fn health_score_stays_in_range_for_all_source_mixes() {
    let config = AuditConfig::default();
    let m = crate_meta(3);
    let gh = github(3, 0, false);
    let gl = gitlab(3, 0, false);
    for c in [None, Some(&m)] {
        for h in [None, Some(&gh)] {
            for l in [None, Some(&gl)] {
                for o in [None, Some(100)] {
                    let (score, scores, metrics) = calculate_health_score(c, h, l, o, NOW, &config);
                    assert!(score <= 100);
                    assert!(scores.recency <= 100 && scores.community <= 100);
                    assert!(metrics.is_some());
                }
            }
        }
    }
    let (score, _, _) = calculate_health_score(None, None, None, None, NOW, &config);
    assert_eq!(score, 20);
}

#[test]
fn yanked_versions_score_at_most_ten() {
    let config = AuditConfig::default();
    let mut m = crate_meta(1);
    m.is_yanked = true;
    m.authors = vec!["a".to_string(); 20];
    m.version_count = 50;
    let gh = github(1, 0, false);
    let (score, _, _) = calculate_health_score(Some(&m), Some(&gh), None, None, NOW, &config);
    assert!(score <= 10);
    assert_eq!(score, 10);
}

#[test]
fn metrics_record_what_was_seen() {
    let config = AuditConfig::default();
    let m = crate_meta(20);
    let gl = gitlab(4, 7, false);
    let (_, scores, metrics) = calculate_health_score(Some(&m), None, Some(&gl), None, NOW, &config);
    let metrics = metrics.unwrap();
    assert_eq!(metrics.days_since_last_update, Some(4));
    assert_eq!(metrics.version_count, Some(10));
    assert_eq!(metrics.maintainer_count, Some(0));
    let repo = metrics.repository.unwrap();
    assert_eq!(repo.open_issues, Some(7));
    assert_eq!(repo.stars, Some(60));
    assert_eq!(repo.contributor_count, None);
    assert_eq!(metrics.scores, scores);
}

#[test]
fn weights_validate_and_normalize() {
    assert!(ScoringWeights::default().validate().is_ok());
    let w = ScoringWeights { recency: 500, maintenance: 300, community: 150, stability: 45, security: 0 };
    assert!(w.validate().is_ok());
    let bad = ScoringWeights { recency: 500, maintenance: 500, community: 500, stability: 0, security: 0 };
    assert!(matches!(bad.validate(), Err(rust_secure_dependency_audit::AuditError::ConfigError(_))));
    let mut n = bad;
    n.normalize();
    assert_eq!(n, ScoringWeights { recency: 334, maintenance: 333, community: 333, stability: 0, security: 0 });
    let mut z = ScoringWeights { recency: 0, maintenance: 0, community: 0, stability: 0, security: 0 };
    z.normalize();
    assert_eq!(z.recency, 0);
}

#[test]
fn validate_reports_the_sum() {
    let bad = ScoringWeights { recency: 500, maintenance: 500, community: 500, stability: 0, security: 0 };
    match bad.validate() {
        Err(rust_secure_dependency_audit::AuditError::ConfigError(m)) => {
            assert_eq!(m, "Scoring weights must sum to 1.0 (1000 thousandths), got 1500")
        }
        other => panic!("unexpected {:?}", other),
    }
}

#[test]
fn very_old_activity_is_risky_even_with_the_largest_threshold() {
    let mut config = AuditConfig::default();
    config.staleness_thresholds.stale_days = u32::MAX - 1;
    config.staleness_thresholds.risky_days = u32::MAX;
    let mut m = crate_meta(0);
    m.updated_at = i64::MIN;
    assert_eq!(calculate_recency_score(Some(&m), None, None, NOW, &config), 10);
    m.updated_at = NOW - 1000 * DAY;
    assert_eq!(calculate_recency_score(Some(&m), None, None, NOW, &config), 60);
}
