use rust_secure_dependency_audit::fetch::{
    contributors_from_response, crate_metadata_from, crate_url, github_contributors_url,
    github_metadata_from, github_repo_url, gitlab_metadata_from, gitlab_project_url, next_step,
    parse_datetime, CrateInfoRecord, FetchEvent, GitHubRepoRecord, GitLabProjectRecord,
    RetryAction, RetryState, VersionRecord,
};
use rust_secure_dependency_audit::openssf::{
    scorecard_step, scorecard_target, scorecard_url, ScorecardAction, ScorecardEvent,
};
use rust_secure_dependency_audit::AuditError;

fn status(code: u16) -> FetchEvent {
    FetchEvent::Status { code, reset_after_secs: None }
}

#[test]
fn retries_double_the_delay_then_give_up() {
    let s0 = RetryState::start(100);
    let (s1, a) = next_step("svc", "item", s0, FetchEvent::Transport, 2);
    assert!(matches!(a, RetryAction::Wait { delay_ms: 100 }));
    let (s2, a) = next_step("svc", "item", s1, status(429), 2);
    assert!(matches!(a, RetryAction::Wait { delay_ms: 200 }));
    assert_eq!(s2, RetryState { attempts: 2, delay_ms: 400 });
    let (_, a) = next_step("svc", "item", s2, FetchEvent::Transport, 2);
    assert!(matches!(a, RetryAction::Fail(AuditError::NetworkError(_))));
    let (_, a) = next_step("svc", "item", s2, status(429), 2);
    match a {
        RetryAction::Fail(AuditError::RateLimitExceeded { service, retry_after_secs }) => {
            assert_eq!(service, "svc");
            assert_eq!(retry_after_secs, Some(0));
        }
        other => panic!("unexpected {:?}", other),
    }
}

#[test]
fn status_codes_are_classified() {
    let s = RetryState::start(10);
    assert!(matches!(next_step("svc", "x", s, status(200), 3).1, RetryAction::Accept));
    match next_step("svc", "x", s, status(404), 3).1 {
        RetryAction::Fail(AuditError::DependencyNotFound(m)) => assert_eq!(m, "x"),
        other => panic!("unexpected {:?}", other),
    }
    match next_step("svc", "x", s, status(500), 3).1 {
        RetryAction::Fail(AuditError::ApiError { service, message }) => {
            assert_eq!(service, "svc");
            assert_eq!(message, "HTTP 500");
        }
        other => panic!("unexpected {:?}", other),
    }
    assert!(matches!(next_step("svc", "x", s, status(403), 3).1, RetryAction::Fail(AuditError::ApiError { .. })));
    let limited = FetchEvent::Status { code: 403, reset_after_secs: Some(7) };
    assert!(matches!(next_step("svc", "x", s, limited, 3).1, RetryAction::Wait { delay_ms: 7000 }));
}

#[test]
fn contributor_count_degrades_to_absent() {
    assert_eq!(contributors_from_response(false, None, Some(3)), None);
    assert_eq!(contributors_from_response(true, Some(r#"<https://a/?page=12>; rel="last""#), Some(1)), Some(12));
    assert_eq!(contributors_from_response(true, None, Some(1)), Some(1));
    assert_eq!(contributors_from_response(true, Some("garbage"), None), None);
}

#[test]
fn request_urls() {
    assert_eq!(crate_url("serde"), "https://crates.io/api/v1/crates/serde");
    assert_eq!(github_repo_url("o", "r"), "https://api.github.com/repos/o/r");
    assert_eq!(github_contributors_url("https://api.github.com/repos/o/r"), "https://api.github.com/repos/o/r/contributors?per_page=1");
    assert_eq!(gitlab_project_url("group/sub project"), "https://gitlab.com/api/v4/projects/group%2Fsub%20project");
}

#[test]
fn timestamps_parse_or_fail() {
    assert_eq!(parse_datetime("1970-01-02T00:00:00Z").unwrap(), 86_400);
    assert_eq!(parse_datetime("2023-11-14T22:13:20+00:00").unwrap(), 1_700_000_000);
    assert!(matches!(parse_datetime("yesterday"), Err(AuditError::ParseError(_))));
}

fn version(num: &str, updated: &str) -> VersionRecord {
    VersionRecord {
        num: num.to_string(),
        license: Some(format!("MIT-{}", num)),
        created_at: updated.to_string(),
        updated_at: updated.to_string(),
        downloads: 1,
        authors: vec![],
        yanked: num == "0.9.0",
    }
}

fn info() -> CrateInfoRecord {
    CrateInfoRecord {
        name: "serde".to_string(),
        description: None,
        repository: Some("https://github.com/serde-rs/serde".to_string()),
        homepage: None,
        downloads: 10,
        recent_downloads: None,
        created_at: "2015-01-01T00:00:00Z".to_string(),
        updated_at: "2024-01-01T00:00:00Z".to_string(),
    }
}

#[test]
fn registry_answer_becomes_metadata() {
    let versions = vec![version("1.0.1", "2024-01-01T00:00:00Z"), version("0.9.0", "2015-01-01T00:00:00Z")];
    let m = crate_metadata_from(info(), versions.clone(), "0.9.0").unwrap();
    assert_eq!(m.version, "0.9.0");
    assert_eq!(m.license.as_deref(), Some("MIT-0.9.0"));
    assert!(m.is_yanked);
    assert_eq!(m.version_count, 2);
    assert_eq!(m.updated_at, 1_420_070_400);
    let latest = crate_metadata_from(info(), versions, "7.0.0").unwrap();
    assert_eq!(latest.version, "1.0.1");
    assert!(matches!(crate_metadata_from(info(), vec![], "1.0.0"), Err(AuditError::ParseError(_))));
    let bad = vec![version("1.0.0", "not a date")];
    assert!(matches!(crate_metadata_from(info(), bad, "1.0.0"), Err(AuditError::ParseError(_))));
}

#[test]
fn host_answers_become_metadata() {
    let repo = GitHubRepoRecord {
        name: "r".to_string(),
        full_name: "o/r".to_string(),
        description: None,
        stargazers_count: 5,
        forks_count: 1,
        open_issues_count: 2,
        archived: true,
        created_at: "1970-01-01T00:00:00Z".to_string(),
        updated_at: "1970-01-01T00:00:10Z".to_string(),
        pushed_at: "1970-01-01T00:01:00Z".to_string(),
    };
    let m = github_metadata_from(repo.clone(), Some(4)).unwrap();
    assert_eq!(m.pushed_at, 60);
    assert_eq!(m.contributors_count, Some(4));
    assert!(m.is_archived);
    let mut broken = repo;
    broken.pushed_at = "never".to_string();
    assert!(github_metadata_from(broken, None).is_err());
    let project = GitLabProjectRecord {
        name: "p".to_string(),
        path_with_namespace: "g/p".to_string(),
        description: None,
        star_count: 9,
        forks_count: 0,
        archived: false,
        created_at: "1970-01-01T00:00:00Z".to_string(),
        last_activity_at: "1970-01-01T01:00:00Z".to_string(),
        open_issues_count: 3,
    };
    let m = gitlab_metadata_from(project).unwrap();
    assert_eq!(m.last_activity_at, 3600);
    assert_eq!(m.stars, 9);
}

#[test]
fn scorecard_target_and_steps() {
    assert_eq!(
        scorecard_target("https://github.com/o/r/"),
        Some(("github.com".to_string(), "o".to_string(), "r".to_string()))
    );
    assert_eq!(
        scorecard_target("https://gitlab.com/g/sub/p"),
        Some(("gitlab.com".to_string(), "sub".to_string(), "p".to_string()))
    );
    assert_eq!(scorecard_target("https://example.com/a/b"), None);
    assert_eq!(scorecard_target("github.com"), None);
    assert_eq!(
        scorecard_url("github.com", "o", "r"),
        "https://api.securityscorecards.dev/projects/github.com/o/r"
    );
    assert_eq!(scorecard_step(0, 2, ScorecardEvent::Status(200)), ScorecardAction::Accept);
    assert_eq!(scorecard_step(0, 2, ScorecardEvent::Status(404)), ScorecardAction::NotFound);
    assert_eq!(scorecard_step(1, 2, ScorecardEvent::Status(500)), ScorecardAction::Retry);
    assert_eq!(scorecard_step(2, 2, ScorecardEvent::Transport), ScorecardAction::GiveUp);
    assert_eq!(scorecard_step(0, 2, ScorecardEvent::Unreadable), ScorecardAction::Retry);
}

#[test]
fn project_paths_are_percent_encoded_by_byte() {
    assert_eq!(gitlab_project_url("a-b_c.d~e"), "https://gitlab.com/api/v4/projects/a-b_c.d~e");
    assert_eq!(gitlab_project_url("é/+"), "https://gitlab.com/api/v4/projects/%C3%A9%2F%2B");
}
