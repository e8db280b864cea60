use rust_secure_dependency_audit::footprint::{
    calculate_build_dep_score, calculate_dep_count_score, calculate_feature_score,
    count_transitive_deps, estimate_footprint,
};
use rust_secure_dependency_audit::graph::{
    determine_source, extract_dependencies, get_project_name, PackageDetail,
};
use rust_secure_dependency_audit::{
    AuditError, DependencySource, FootprintThresholds, PackageGraph, PackageNode,
};
use std::collections::BTreeMap;

fn node(name: &str, deps: Vec<usize>) -> PackageNode {
    PackageNode {
        name: name.to_string(),
        version: "1.0.0".to_string(),
        source: Some("registry+https://github.com/rust-lang/crates.io-index".to_string()),
        manifest_dir: None,
        detail: None,
        declared_deps: vec![],
        deps,
    }
}

fn chain(n: usize) -> PackageGraph {
    let nodes = (0..n)
        .map(|i| node(&format!("pkg{}", i), if i + 1 < n { vec![i + 1] } else { vec![] }))
        .collect();
    PackageGraph { nodes, resolved: true, root: Some(0), workspace_members: vec![] }
}

#[test]
fn test_dep_count_score() {
    assert!((calculate_dep_count_score(3) as f32) / 10.0 < 0.2);
    assert!((calculate_dep_count_score(15) as f32) / 10.0 > 0.3);
    assert!((calculate_dep_count_score(150) as f32) / 10.0 > 0.9);
}

#[test]
fn test_feature_score() {
    let mut features: BTreeMap<String, Vec<String>> = BTreeMap::new();

    assert!((calculate_feature_score(features.len()) as f32) / 10.0 < 0.2);

    for i in 0..10 {
        features.insert(format!("feature{}", i), vec![]);
    }

    assert!((calculate_feature_score(features.len()) as f32) / 10.0 > 0.4);
}

#[test]
fn build_dep_buckets() {
    assert_eq!(calculate_build_dep_score(0), 0);
    assert_eq!(calculate_build_dep_score(2), 3);
    assert_eq!(calculate_build_dep_score(5), 6);
    assert_eq!(calculate_build_dep_score(6), 10);
}

#[test]
fn transitive_count_walks_shared_and_cyclic_graphs() {
    let g = chain(5);
    assert_eq!(count_transitive_deps(0, &g), 4);
    assert_eq!(count_transitive_deps(4, &g), 0);
    assert_eq!(count_transitive_deps(9, &g), 0);
    let mut diamond = chain(4);
    diamond.nodes[0].deps = vec![1, 2];
    diamond.nodes[1].deps = vec![3];
    diamond.nodes[2].deps = vec![3, 0];
    diamond.nodes[3].deps = vec![1];
    assert!(diamond.is_well_formed());
    assert_eq!(count_transitive_deps(0, &diamond), 3);
    assert_eq!(count_transitive_deps(3, &diamond), 1);
    let mut unresolved = chain(5);
    unresolved.resolved = false;
    assert_eq!(count_transitive_deps(0, &unresolved), 0);
}

#[test]
fn footprint_score_and_warnings() {
    let none = FootprintThresholds { max_transitive_deps: None, max_footprint_risk: None };
    let g = chain(1);
    let (score, warnings) = estimate_footprint(0, &g, &none);
    assert_eq!(score, 4);
    assert!(warnings.is_empty());

    let mut g = chain(1);
    g.nodes[0].detail = Some(PackageDetail { feature_count: 0, build_dep_count: 0 });
    let (score, _) = estimate_footprint(0, &g, &none);
    assert_eq!(score, 7);

    let mut g = chain(120);
    g.nodes[0].detail = Some(PackageDetail { feature_count: 40, build_dep_count: 7 });
    let (score, warnings) = estimate_footprint(0, &g, &FootprintThresholds::default());
    assert_eq!(score, 100);
    assert_eq!(
        warnings,
        vec![
            "High number of transitive dependencies: 119 (threshold: 100)".to_string(),
            "High footprint risk: 1.00 (threshold: 0.80)".to_string(),
        ]
    );
}

#[test]
fn footprint_grows_with_transitive_count() {
    let none = FootprintThresholds { max_transitive_deps: None, max_footprint_risk: None };
    let mut last = 0;
    for n in [1, 6, 7, 12, 22, 52, 102, 130] {
        let (score, _) = estimate_footprint(0, &chain(n), &none);
        assert!(score >= last);
        last = score;
    }
    assert_eq!(last, 40);
}

#[test]
fn test_determine_source() {
    assert!(matches!(
        determine_source(Some("registry+https://github.com/rust-lang/crates.io-index"), None),
        DependencySource::CratesIo
    ));
    match determine_source(Some("git+https://github.com/o/r?branch=main#abc"), None) {
        DependencySource::Git { url } => assert_eq!(url, "https://github.com/o/r"),
        other => panic!("unexpected {:?}", other),
    }
    match determine_source(Some("path+file:///home/u/p"), None) {
        DependencySource::Path { path } => assert_eq!(path, "/home/u/p"),
        other => panic!("unexpected {:?}", other),
    }
    match determine_source(None, Some("/work/member")) {
        DependencySource::Path { path } => assert_eq!(path, "/work/member"),
        other => panic!("unexpected {:?}", other),
    }
    match determine_source(None, None) {
        DependencySource::Path { path } => assert_eq!(path, "unknown"),
        other => panic!("unexpected {:?}", other),
    }
    assert!(matches!(determine_source(Some("sparse+x"), None), DependencySource::Unknown));
}

#[test]
fn dependencies_and_project_name_from_graph() {
    let mut g = chain(4);
    g.nodes[0].declared_deps = vec!["pkg1".to_string(), "pkg3".to_string()];
    let deps = extract_dependencies(&g).unwrap();
    let names: Vec<&str> = deps.iter().map(|d| d.name.as_str()).collect();
    assert_eq!(names, vec!["pkg1", "pkg2", "pkg3"]);
    let direct: Vec<bool> = deps.iter().map(|d| d.is_direct).collect();
    assert_eq!(direct, vec![true, false, true]);
    assert_eq!(deps[1].package_id, 2);
    assert_eq!(get_project_name(&g).unwrap(), "pkg0");

    let mut ws = chain(3);
    ws.root = None;
    ws.workspace_members = vec![0, 1];
    let deps = extract_dependencies(&ws).unwrap();
    assert_eq!(deps.len(), 1);
    assert_eq!(deps[0].name, "pkg2");

    let mut unresolved = chain(2);
    unresolved.resolved = false;
    assert!(matches!(extract_dependencies(&unresolved), Err(AuditError::ParseError(_))));
    assert_eq!(get_project_name(&unresolved).unwrap(), "pkg0");

    let empty = PackageGraph { nodes: vec![], resolved: false, root: None, workspace_members: vec![] };
    assert!(matches!(get_project_name(&empty), Err(AuditError::ParseError(_))));
}

#[test]
fn ill_formed_graphs_are_detected() {
    let mut g = chain(2);
    g.nodes[1].deps = vec![5];
    assert!(!g.is_well_formed());
    let mut g = chain(2);
    g.root = Some(2);
    assert!(!g.is_well_formed());
    assert!(chain(3).is_well_formed());
}
