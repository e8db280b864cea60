use rust_secure_dependency_audit::audit::{needs_registry_fetch, repository_host};
use rust_secure_dependency_audit::{
    build_report, process_dependency, select_dependencies, AuditConfig, AuditError, AuditReport,
    CrateMetadata, DependencyHealth, DependencySource, FetchedMetadata, HealthStatus, LicenseRisk,
    PackageGraph, PackageNode, ParsedDependency, RepoHost,
};

const NOW: i64 = 1_700_000_000;

fn graph() -> PackageGraph {
    let node = |name: &str, deps: Vec<usize>| PackageNode {
        name: name.to_string(),
        version: "1.0.0".to_string(),
        source: None,
        manifest_dir: None,
        detail: None,
        declared_deps: vec![],
        deps,
    };
    PackageGraph {
        nodes: vec![node("app", vec![1, 2]), node("a", vec![2]), node("b", vec![])],
        resolved: true,
        root: Some(0),
        workspace_members: vec![],
    }
}

fn dep(name: &str, id: usize) -> ParsedDependency {
    ParsedDependency {
        name: name.to_string(),
        version: "1.0.0".to_string(),
        is_direct: true,
        source: DependencySource::CratesIo,
        package_id: id,
    }
}

fn meta(license: Option<&str>) -> CrateMetadata {
    CrateMetadata {
        name: "a".to_string(),
        version: "1.0.0".to_string(),
        description: None,
        license: license.map(|s| s.to_string()),
        repository: Some("https://github.com/o/a".to_string()),
        homepage: None,
        downloads: 5_000_000,
        recent_downloads: None,
        created_at: NOW - 900 * 86_400,
        updated_at: NOW - 10 * 86_400,
        version_count: 40,
        authors: vec!["x".to_string(), "y".to_string()],
        is_yanked: false,
    }
}

fn nothing() -> FetchedMetadata {
    FetchedMetadata { crate_meta: None, github_meta: None, gitlab_meta: None, openssf_score: None }
}

#[test]
fn failed_fetch_becomes_a_warning_not_a_missing_entry() {
    let config = AuditConfig::default();
    let g = graph();
    let outcomes = vec![
        FetchedMetadata {
            crate_meta: Some(Ok(meta(Some("MIT")))),
            github_meta: Some(Err(AuditError::network("Request failed"))),
            ..nothing()
        },
        FetchedMetadata { crate_meta: Some(Err(AuditError::DependencyNotFound("b".to_string()))), ..nothing() },
    ];
    let report = build_report("app".to_string(), ".".to_string(), NOW, vec![dep("a", 1), dep("b", 2)], outcomes, NOW, &config, &g);
    assert_eq!(report.dependencies.len(), 2);
    assert_eq!(report.summary.total_dependencies, 2);
    let a = &report.dependencies[0];
    assert_eq!(a.warnings[0], "Could not fetch GitHub metadata: Network error: Request failed");
    assert_eq!(a.license_risk, LicenseRisk::Permissive);
    assert_eq!(a.license.as_deref(), Some("MIT"));
    let b = &report.dependencies[1];
    assert_eq!(b.warnings[0], "Could not fetch crates.io metadata: Dependency not found: b");
    assert_eq!(b.warnings[1], "No license information found");
    assert_eq!(b.license_risk, LicenseRisk::Unknown);
    assert_eq!(b.health_score, 20);
    assert_eq!(b.status, HealthStatus::Risky);
}

#[test]
fn entry_scores_from_the_data_that_arrived() {
    let config = AuditConfig::default();
    let g = graph();
    let out = FetchedMetadata { crate_meta: Some(Ok(meta(Some("GPL-3.0")))), ..nothing() };
    let h: DependencyHealth = process_dependency(dep("a", 1), out, NOW, &config, &g);
    // recency 100, maintenance 50, community 50, stability 100, security 50
    assert_eq!(h.health_score, 75);
    assert_eq!(h.status, HealthStatus::Warning);
    assert_eq!(h.license_risk, LicenseRisk::Copyleft);
    assert_eq!(h.warnings, vec!["Copyleft license detected: GPL-3.0".to_string()]);
    assert_eq!(h.footprint_risk, Some(4));
    assert!(!h.is_yanked);
}

#[test]
fn summary_counts_match_entries() {
    let config = AuditConfig::default();
    let g = graph();
    let outcomes = vec![
        FetchedMetadata { crate_meta: Some(Ok(meta(Some("MIT")))), ..nothing() },
        nothing(),
    ];
    let report = build_report("app".to_string(), ".".to_string(), NOW, vec![dep("a", 1), dep("b", 2)], outcomes, NOW, &config, &g);
    let s = report.summary;
    assert_eq!(s.healthy + s.warning + s.stale + s.risky, s.total_dependencies);
    let mean = report.dependencies.iter().map(|d| d.health_score as u32).sum::<u32>() * 100 / 2;
    assert_eq!(s.average_health_score, mean);
    assert_eq!(s.license_issues, 1);
    assert_eq!(s.high_footprint_count, 0);
}

#[test]
fn empty_report_summary_is_zero() {
    let mut report = AuditReport::new("p".to_string(), ".".to_string(), NOW);
    report.compute_summary();
    assert_eq!(report.summary.total_dependencies, 0);
    assert_eq!(report.summary.average_health_score, 0);
}

#[test]
fn ignored_dependencies_are_left_out() {
    let kept = select_dependencies(vec![dep("a", 1), dep("b", 2), dep("a", 1)], &vec!["a".to_string()]);
    assert_eq!(kept.len(), 1);
    assert_eq!(kept[0].name, "b");
    let builder = AuditConfig::builder().ignore_dependency("x".to_string()).ignore_dependency("x".to_string());
    assert_eq!(builder.build().ignored_dependencies, vec!["x".to_string()]);
}

#[test]
fn host_choice_and_registry_need() {
    assert_eq!(repository_host(Some("https://github.com/o/r")), RepoHost::GitHub);
    assert_eq!(repository_host(Some("https://gitlab.com/g/p")), RepoHost::GitLab);
    assert_eq!(repository_host(Some("https://github.com/gitlab.com")), RepoHost::GitHub);
    assert_eq!(repository_host(Some("https://example.org/r")), RepoHost::Neither);
    assert_eq!(repository_host(None), RepoHost::Neither);
    assert!(needs_registry_fetch(&dep("a", 1)));
    let mut d = dep("a", 1);
    d.source = DependencySource::Git { url: "u".to_string() };
    assert!(!needs_registry_fetch(&d));
}

#[test]
fn status_and_risk_names() {
    assert_eq!(HealthStatus::Stale.as_str(), "Stale");
    assert_eq!(LicenseRisk::Proprietary.as_str(), "Proprietary");
}

#[test]
fn error_descriptions() {
    assert_eq!(AuditError::parse("x").describe(), "Failed to parse project metadata: x");
    assert_eq!(AuditError::api("svc", "HTTP 500").describe(), "API error from svc: HTTP 500");
    assert_eq!(AuditError::config("bad").describe(), "Configuration error: bad");
    assert_eq!(AuditError::InvalidDependency("d".to_string()).describe(), "Invalid dependency: d");
    assert_eq!(
        AuditError::RateLimitExceeded { service: "s".to_string(), retry_after_secs: Some(30) }.describe(),
        "Rate limit exceeded for s. Retry after: 30s"
    );
    assert_eq!(
        AuditError::RateLimitExceeded { service: "s".to_string(), retry_after_secs: None }.describe(),
        "Rate limit exceeded for s. Retry after: unknown"
    );
}

#[test]
fn entry_keeps_source_and_declared_license() {
    let config = AuditConfig::default();
    let g = graph();
    let out = FetchedMetadata { crate_meta: Some(Ok(meta(Some("Apache-2.0")))), ..nothing() };
    let h = process_dependency(dep("a", 1), out, NOW, &config, &g);
    assert!(matches!(h.source, DependencySource::CratesIo));
    assert_eq!(h.license.as_deref(), Some("Apache-2.0"));
    let mut d = dep("b", 2);
    d.source = DependencySource::Path { path: "/work/b".to_string() };
    let h = process_dependency(d, nothing(), NOW, &config, &g);
    match h.source {
        DependencySource::Path { path } => assert_eq!(path, "/work/b"),
        other => panic!("unexpected {:?}", other),
    }
    assert_eq!(h.license, None);
    assert_eq!(h.license_risk, LicenseRisk::Unknown);
}
