use rust_secure_dependency_audit::github::{extract_last_page, parse_github_url};
use rust_secure_dependency_audit::gitlab::parse_gitlab_url;
use rust_secure_dependency_audit::AuditError;

#[test]
fn test_parse_github_url() {
    let test_cases = vec![
        ("https://github.com/serde-rs/serde", ("serde-rs", "serde")),
        ("https://github.com/serde-rs/serde.git", ("serde-rs", "serde")),
        ("git://github.com/serde-rs/serde", ("serde-rs", "serde")),
        ("git@github.com:serde-rs/serde.git", ("serde-rs", "serde")),
    ];

    for (url, expected) in test_cases {
        let result = parse_github_url(url).unwrap();
        assert_eq!(result, (expected.0.to_string(), expected.1.to_string()));
    }
}

#[test]
fn test_extract_last_page() {
    let link_header = r#"<https://api.github.com/repos/rust-lang/rust/contributors?page=2>; rel="next", <https://api.github.com/repos/rust-lang/rust/contributors?page=50>; rel="last""#;
    assert_eq!(extract_last_page(link_header), Some(50));
}

#[test]
fn test_parse_gitlab_url() {
    let test_cases = vec![
        ("https://gitlab.com/gitlab-org/gitlab", "gitlab-org/gitlab"),
        ("https://gitlab.com/gitlab-org/gitlab.git", "gitlab-org/gitlab"),
        ("git@gitlab.com:gitlab-org/gitlab.git", "gitlab-org/gitlab"),
    ];

    for (url, expected) in test_cases {
        let result = parse_gitlab_url(url).unwrap();
        assert_eq!(result, expected);
    }
}

#[test]
fn equivalent_repository_urls_give_one_pair() {
    for url in [
        "https://github.com/o/r",
        "https://github.com/o/r.git",
        "git://github.com/o/r",
        "git@github.com:o/r.git",
        "https://github.com/o/r/",
        "https://github.com/o/r/tree/main",
    ] {
        assert_eq!(parse_github_url(url).unwrap(), ("o".to_string(), "r".to_string()), "{}", url);
    }
}

#[test]
fn malformed_repository_urls_are_parse_errors() {
    for url in ["https://example.com/o/r", "https://github.com/only-owner", ""] {
        match parse_github_url(url) {
            Err(AuditError::ParseError(m)) => assert!(m.starts_with("Invalid GitHub URL: ")),
            other => panic!("unexpected {:?} for {}", other, url),
        }
    }
    match parse_gitlab_url("https://gitlab.com/") {
        Err(AuditError::ParseError(m)) => assert_eq!(m, "Invalid GitLab URL: https://gitlab.com"),
        other => panic!("unexpected {:?}", other),
    }
    assert!(parse_gitlab_url("https://github.com/o/r").is_err());
}

#[test]
fn gitlab_subgroups_are_kept() {
    assert_eq!(parse_gitlab_url("https://gitlab.com/a/b/c/").unwrap(), "a/b/c");
}

#[test]
fn last_page_edge_cases() {
    assert_eq!(extract_last_page(""), None);
    assert_eq!(extract_last_page(r#"<https://x/?page=3>; rel="next""#), None);
    assert_eq!(extract_last_page(r#"<https://x/?page=abc>; rel="last""#), None);
    assert_eq!(extract_last_page(r#"<https://x/?page=99999999999>; rel="last""#), None);
    assert_eq!(extract_last_page(r#"<https://x/?page=7>; rel="last""#), Some(7));
}
