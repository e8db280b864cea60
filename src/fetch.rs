//! The decisions of the metadata fetchers: the shared retry policy, the
//! request URLs, and turning what a service answered into metadata.
//!
//! The caller performs each request and each wait; this module decides what
//! comes next.
use vstd::prelude::*;
use crate::error::AuditError;
use crate::fmt::{decimal, decimal_text};
use crate::github::extract_last_page;
use crate::metadata::{CrateMetadata, GitHubMetadata, GitLabMetadata};
use crate::text::chars_of;
use vstd::string::*;

verus! {

/// What one request produced.
#[derive(Clone, Copy, Debug, PartialEq, Eq, Structural)]
pub enum FetchEvent {
    /// The request failed in transport (connection, timeout).
    Transport,
    /// The service answered with a status code; `reset_after_secs` is the
    /// wait that its rate-limit reset header asks for, when it sent one.
    Status { code: u16, reset_after_secs: Option<u64> },
}

/// Where a retrying fetch stands.
#[derive(Clone, Copy, Debug, PartialEq, Eq, Structural)]
pub struct RetryState {
    /// Retries made so far.
    pub attempts: u32,
    /// The wait before the next retry, in milliseconds.
    pub delay_ms: u64,
}

/// What to do after a request.
#[derive(Clone, Debug)]
pub enum RetryAction {
    /// The answer is a success: read it.
    Accept,
    /// Wait this many milliseconds, then send the request again.
    Wait { delay_ms: u64 },
    /// Give up with this error.
    Fail(AuditError),
}

impl RetryState {
    /// The state before the first request: no retries, the configured base delay.
    pub fn start(base_delay_ms: u64) -> (r: RetryState)
        ensures
            r.attempts == 0,
            r.delay_ms == base_delay_ms,
    {
        RetryState { attempts: 0, delay_ms: base_delay_ms }
    }
}

/// `d` doubled, saturating.
pub open spec fn doubled(d: u64) -> u64 {
    if d > u64::MAX / 2 {
        u64::MAX
    } else {
        (d * 2) as u64
    }
}

/// A status code of success.
pub open spec fn is_success(code: u16) -> bool {
    200 <= code <= 299
}

/// The answer signals a rate limit: 429, or 403 with a reset header.
pub open spec fn is_rate_limited(code: u16, reset: Option<u64>) -> bool {
    code == 429 || (code == 403 && reset is Some)
}

/// The wait, in milliseconds, that a reset hint of `secs` seconds asks for (saturating).
pub open spec fn hint_ms(secs: u64) -> u64 {
    if secs > u64::MAX / 1000 {
        u64::MAX
    } else {
        (secs * 1000) as u64
    }
}

pub open spec fn api_message(code: u16) -> Seq<char> {
    "HTTP "@ + decimal_text(code as nat)
}

/// Decide what follows a request, given how many retries `max_retries` allows.
/// Transport failures and rate limits are retried with a doubling delay (a
/// rate limit's reset hint, when present, sets that wait); 404 ends in "not
/// found" for `item`; any other non-success status ends in an API error.
pub fn next_step(
    service: &str,
    item: &str,
    state: RetryState,
    event: FetchEvent,
    max_retries: u32,
) -> (r: (RetryState, RetryAction))
    ensures
        match event {
            FetchEvent::Transport => if state.attempts >= max_retries {
                r.1 matches RetryAction::Fail(AuditError::NetworkError(_))
            } else {
                r.1 == RetryAction::Wait { delay_ms: state.delay_ms } && r.0 == (RetryState {
                    attempts: (state.attempts + 1) as u32,
                    delay_ms: doubled(state.delay_ms),
                })
            },
            FetchEvent::Status { code, reset_after_secs } => if is_success(code) {
                r.1 is Accept
            } else if is_rate_limited(code, reset_after_secs) {
                if state.attempts >= max_retries {
                    r.1 matches RetryAction::Fail(
                        AuditError::RateLimitExceeded { service: s, retry_after_secs: w },
                    ) && s@ == service@ && w == Some(
                        match reset_after_secs {
                            Some(h) => h,
                            None => state.delay_ms / 1000,
                        },
                    )
                } else {
                    r.1 == RetryAction::Wait {
                        delay_ms: match reset_after_secs {
                            Some(h) => hint_ms(h),
                            None => state.delay_ms,
                        },
                    } && r.0 == (RetryState {
                        attempts: (state.attempts + 1) as u32,
                        delay_ms: doubled(state.delay_ms),
                    })
                }
            } else if code == 404 {
                r.1 matches RetryAction::Fail(AuditError::DependencyNotFound(m)) && m@ == item@
            } else {
                r.1 matches RetryAction::Fail(AuditError::ApiError { service: s, message: m })
                    && s@ == service@ && m@ == api_message(code)
            },
        },
        r.1 is Wait ==> state.attempts < max_retries && r.0.attempts == state.attempts + 1,
{
    let next = RetryState {
        attempts: if state.attempts < u32::MAX {
            state.attempts + 1
        } else {
            u32::MAX
        },
        delay_ms: if state.delay_ms > u64::MAX / 2 {
            u64::MAX
        } else {
            state.delay_ms * 2
        },
    };
    match event {
        FetchEvent::Transport => {
            if state.attempts >= max_retries {
                (state, RetryAction::Fail(AuditError::network("Request failed")))
            } else {
                (next, RetryAction::Wait { delay_ms: state.delay_ms })
            }
        },
        FetchEvent::Status { code, reset_after_secs } => {
            if 200 <= code && code <= 299 {
                (state, RetryAction::Accept)
            } else if code == 429 || (code == 403 && reset_after_secs.is_some()) {
                if state.attempts >= max_retries {
                    let wait = match reset_after_secs {
                        Some(h) => h,
                        None => state.delay_ms / 1000,
                    };
                    (
                        state,
                        RetryAction::Fail(
                            AuditError::RateLimitExceeded {
                                service: service.to_owned(),
                                retry_after_secs: Some(wait),
                            },
                        ),
                    )
                } else {
                    let wait = match reset_after_secs {
                        Some(h) => if h > u64::MAX / 1000 {
                            u64::MAX
                        } else {
                            h * 1000
                        },
                        None => state.delay_ms,
                    };
                    (next, RetryAction::Wait { delay_ms: wait })
                }
            } else if code == 404 {
                (state, RetryAction::Fail(AuditError::DependencyNotFound(item.to_owned())))
            } else {
                let msg = "HTTP ".to_owned().concat(decimal(code as u64).as_str());
                (state, RetryAction::Fail(AuditError::api(service, msg.as_str())))
            }
        },
    }
}

/// The contributor count that the secondary lookup gives: absent when it
/// failed; else the last page of its pagination header (one contributor per
/// page); else the number of items in the answer, when it could be read.
pub open spec fn contributor_count(
    success: bool,
    link_header: Option<Seq<char>>,
    body_items: Option<nat>,
) -> Option<u32> {
    if !success {
        None
    } else {
        let from_link = match link_header {
            Some(l) => crate::github::last_page_in(l),
            None => None,
        };
        match from_link {
            Some(n) => Some(n),
            None => match body_items {
                Some(k) => Some(
                    if k > u32::MAX {
                        u32::MAX
                    } else {
                        k as u32
                    },
                ),
                None => None,
            },
        }
    }
}

/// Decide the contributor count from the secondary lookup's answer.
pub fn contributors_from_response(
    success: bool,
    link_header: Option<&str>,
    body_items: Option<usize>,
) -> (r: Option<u32>)
    ensures
        r == contributor_count(
            success,
            crate::graph::opt_view(link_header),
            match body_items {
                Some(k) => Some(k as nat),
                None => None,
            },
        ),
{
    if !success {
        return None;
    }
    let from_link = match link_header {
        Some(l) => extract_last_page(l),
        None => None,
    };
    match from_link {
        Some(n) => Some(n),
        None => match body_items {
            Some(k) => Some(
                if k > u32::MAX as usize {
                    u32::MAX
                } else {
                    k as u32
                },
            ),
            None => None,
        },
    }
}

/// The seconds since the Unix epoch that an RFC 3339 timestamp names, or
/// `None` when `str` is not one, as the date-time parser reads it.
pub uninterp spec fn rfc3339_seconds(s: Seq<char>) -> Option<i64>;

/// Relies on `chrono::DateTime::parse_from_rfc3339` and `DateTime::timestamp`:
/// the parse succeeds or fails on the text alone, and the instant it names is
/// a function of that text.
#[verifier::external_body]
fn parse_rfc3339(s: &str) -> (r: Option<i64>)
    ensures
        r == rfc3339_seconds(s@),
{
    match chrono::DateTime::parse_from_rfc3339(s) {
        Ok(d) => Some(d.timestamp()),
        Err(_) => None,
    }
}

/// Parse an RFC 3339 timestamp into seconds since the Unix epoch; a malformed
/// one is a parse error.
pub fn parse_datetime(s: &str) -> (r: Result<i64, AuditError>)
    ensures
        r matches Ok(t) ==> rfc3339_seconds(s@) == Some(t),
        r is Err <==> rfc3339_seconds(s@) is None,
        r matches Err(e) ==> e is ParseError,
{
    match parse_rfc3339(s) {
        Some(t) => Ok(t),
        None => Err(AuditError::parse("Invalid datetime")),
    }
}

/// A byte that percent-encoding keeps: an ASCII letter or digit, or one of `-_.~`.
pub open spec fn unreserved(b: u8) -> bool {
    (48 <= b <= 57) || (65 <= b <= 90) || (97 <= b <= 122) || b == 45 || b == 46 || b == 95
        || b == 126
}

/// The upper-case hexadecimal digit for `d` (0..=15).
pub open spec fn hex_char(d: int) -> char {
    if d < 10 {
        crate::fmt::digit_char(d as nat)
    } else if d == 10 {
        'A'
    } else if d == 11 {
        'B'
    } else if d == 12 {
        'C'
    } else if d == 13 {
        'D'
    } else if d == 14 {
        'E'
    } else {
        'F'
    }
}

/// `bytes` percent-encoded: each kept byte as itself, each other byte as `%`
/// and two upper-case hexadecimal digits.
pub open spec fn percent_encoded(bytes: Seq<u8>) -> Seq<char>
    decreases bytes.len(),
{
    if bytes.len() == 0 {
        seq![]
    } else {
        let b = bytes.last();
        percent_encoded(bytes.drop_last()) + if unreserved(b) {
            seq![b as char]
        } else {
            seq!['%', hex_char(b as int / 16), hex_char(b as int % 16)]
        }
    }
}

/// Relies on `urlencoding::encode`: percent-encodes each byte of the UTF-8
/// text except ASCII letters, digits and `-_.~`, with upper-case hex digits.
#[verifier::external_body]
fn encode_component(s: &str) -> (r: String)
    ensures
        r@ == percent_encoded(s.spec_bytes()),
{
    urlencoding::encode(s).into_owned()
}

/// The registry request for a package.
pub fn crate_url(crate_name: &str) -> (r: String)
    ensures
        r@ == "https://crates.io/api/v1/crates/"@ + crate_name@,
{
    "https://crates.io/api/v1/crates/".to_owned().concat(crate_name)
}

/// The first host's request for a repository.
pub fn github_repo_url(owner: &str, repo: &str) -> (r: String)
    ensures
        r@ == "https://api.github.com/repos/"@ + owner@ + "/"@ + repo@,
{
    let a = "https://api.github.com/repos/".to_owned().concat(owner);
    a.concat("/").concat(repo)
}

/// The first host's contributor listing, one per page, for a repository request URL.
pub fn github_contributors_url(repo_url: &str) -> (r: String)
    ensures
        r@ == repo_url@ + "/contributors?per_page=1"@,
{
    repo_url.to_owned().concat("/contributors?per_page=1")
}

/// The second host's request for a project path, which is URL-encoded.
pub fn gitlab_project_url(project_path: &str) -> (r: String)
    ensures
        r@ == "https://gitlab.com/api/v4/projects/"@ + percent_encoded(project_path.spec_bytes()),
{
    let encoded = encode_component(project_path);
    "https://gitlab.com/api/v4/projects/".to_owned().concat(encoded.as_str())
}

/// The registry's record of a package, as it answered.
#[derive(Clone, Debug)]
pub struct CrateInfoRecord {
    pub name: String,
    pub description: Option<String>,
    pub repository: Option<String>,
    pub homepage: Option<String>,
    pub downloads: u64,
    pub recent_downloads: Option<u64>,
    pub created_at: String,
    pub updated_at: String,
}

/// The registry's record of one published version, as it answered.
#[derive(Clone, Debug)]
pub struct VersionRecord {
    pub num: String,
    pub license: Option<String>,
    pub created_at: String,
    pub updated_at: String,
    pub downloads: u64,
    pub authors: Vec<String>,
    pub yanked: bool,
}

/// The index of the record of `version`, else 0 (the latest); `None` when there are none.
pub open spec fn chosen_version(versions: Seq<VersionRecord>, version: Seq<char>) -> Option<int> {
    if versions.len() == 0 {
        None
    } else if exists|i: int| 0 <= i < versions.len() && #[trigger] versions[i].num@ == version {
        Some(choose|i: int| 0 <= i < versions.len() && #[trigger] versions[i].num@ == version && forall|j: int| 0 <= j < i ==> versions[j].num@ != version)
    } else {
        Some(0)
    }
}

fn find_version(versions: &Vec<VersionRecord>, version: &str) -> (r: Option<usize>)
    ensures
        r matches Some(i) ==> i < versions@.len() && versions@[i as int].num@ == version@ && forall|j: int| 0 <= j < i ==> versions@[j].num@ != version@,
        r is None ==> forall|j: int| 0 <= j < versions@.len() ==> versions@[j].num@ != version@,
{
    let target = chars_of(version);
    let mut i: usize = 0;
    while i < versions.len()
        invariant
            target@ == version@,
            i <= versions@.len(),
            forall|j: int| 0 <= j < i ==> versions@[j].num@ != version@,
        decreases versions@.len() - i,
    {
        let num = chars_of(versions[i].num.as_str());
        if num.len() == target.len() && crate::text::matches_at(&num, &target, 0) {
            assert(num@.subrange(0, target@.len() as int) =~= num@);
            return Some(i);
        }
        proof {
            if num@.len() == target@.len() {
                assert(num@.subrange(0, target@.len() as int) =~= num@);
            }
        }
        i = i + 1;
    }
    None
}

/// Turn the registry's answer into metadata for `version` (the latest when that
/// version is not listed). No versions, or a malformed timestamp, is a parse error.
pub fn crate_metadata_from(info: CrateInfoRecord, versions: Vec<VersionRecord>, version: &str) -> (r: Result<CrateMetadata, AuditError>)
    ensures
        r is Ok <==> (chosen_version(versions@, version@) matches Some(i) && rfc3339_seconds(info.created_at@) is Some && rfc3339_seconds(versions@[i].updated_at@) is Some),
        r matches Ok(m) ==> (chosen_version(versions@, version@) matches Some(i) && {
            &&& m.name == info.name
            &&& m.version@ == versions@[i].num@
            &&& m.license == versions@[i].license
            &&& m.repository == info.repository
            &&& m.downloads == info.downloads
            &&& Some(m.created_at) == rfc3339_seconds(info.created_at@)
            &&& Some(m.updated_at) == rfc3339_seconds(versions@[i].updated_at@)
            &&& m.version_count == if versions@.len() > u32::MAX { u32::MAX as int } else { versions@.len() as int }
            &&& m.authors@ == versions@[i].authors@
            &&& m.is_yanked == versions@[i].yanked
        }),
        r matches Err(e) ==> e is ParseError,
{
    if versions.len() == 0 {
        return Err(AuditError::parse("No versions found for crate"));
    }
    let idx = match find_version(&versions, version) {
        Some(i) => {
            assert(chosen_version(versions@, version@) == Some(i as int));
            i
        },
        None => 0,
    };
    let created_at = match parse_datetime(info.created_at.as_str()) {
        Ok(t) => t,
        Err(e) => return Err(e),
    };
    let v = &versions[idx];
    let updated_at = match parse_datetime(v.updated_at.as_str()) {
        Ok(t) => t,
        Err(e) => return Err(e),
    };
    let n = versions.len();
    Ok(CrateMetadata {
        name: info.name,
        version: v.num.as_str().to_owned(),
        description: info.description,
        license: v.license.clone(),
        repository: info.repository,
        homepage: info.homepage,
        downloads: info.downloads,
        recent_downloads: info.recent_downloads,
        created_at,
        updated_at,
        version_count: if n > u32::MAX as usize {
            u32::MAX
        } else {
            n as u32
        },
        authors: v.authors.clone(),
        is_yanked: v.yanked,
    })
}

/// The first host's record of a repository, as it answered.
#[derive(Clone, Debug)]
pub struct GitHubRepoRecord {
    pub name: String,
    pub full_name: String,
    pub description: Option<String>,
    pub stargazers_count: u32,
    pub forks_count: u32,
    pub open_issues_count: u32,
    pub archived: bool,
    pub created_at: String,
    pub updated_at: String,
    pub pushed_at: String,
}

/// Turn the first host's answer, and the contributor count if one was found,
/// into metadata. A malformed timestamp is a parse error.
pub fn github_metadata_from(repo: GitHubRepoRecord, contributors_count: Option<u32>) -> (r: Result<GitHubMetadata, AuditError>)
    ensures
        r is Ok <==> (rfc3339_seconds(repo.created_at@) is Some && rfc3339_seconds(repo.updated_at@) is Some && rfc3339_seconds(repo.pushed_at@) is Some),
        r matches Ok(m) ==> {
            &&& m.name == repo.name
            &&& m.full_name == repo.full_name
            &&& m.stars == repo.stargazers_count
            &&& m.forks == repo.forks_count
            &&& m.open_issues == repo.open_issues_count
            &&& m.is_archived == repo.archived
            &&& Some(m.created_at) == rfc3339_seconds(repo.created_at@)
            &&& Some(m.updated_at) == rfc3339_seconds(repo.updated_at@)
            &&& Some(m.pushed_at) == rfc3339_seconds(repo.pushed_at@)
            &&& m.contributors_count == contributors_count
            &&& m.has_security_policy is None
        },
        r matches Err(e) ==> e is ParseError,
{
    let created_at = match parse_datetime(repo.created_at.as_str()) {
        Ok(t) => t,
        Err(e) => return Err(e),
    };
    let updated_at = match parse_datetime(repo.updated_at.as_str()) {
        Ok(t) => t,
        Err(e) => return Err(e),
    };
    let pushed_at = match parse_datetime(repo.pushed_at.as_str()) {
        Ok(t) => t,
        Err(e) => return Err(e),
    };
    Ok(GitHubMetadata {
        name: repo.name,
        full_name: repo.full_name,
        description: repo.description,
        stars: repo.stargazers_count,
        forks: repo.forks_count,
        open_issues: repo.open_issues_count,
        is_archived: repo.archived,
        created_at,
        updated_at,
        pushed_at,
        contributors_count,
        has_security_policy: None,
    })
}

/// The second host's record of a project, as it answered.
#[derive(Clone, Debug)]
pub struct GitLabProjectRecord {
    pub name: String,
    pub path_with_namespace: String,
    pub description: Option<String>,
    pub star_count: u32,
    pub forks_count: u32,
    pub archived: bool,
    pub created_at: String,
    pub last_activity_at: String,
    pub open_issues_count: u32,
}

/// Turn the second host's answer into metadata. A malformed timestamp is a parse error.
pub fn gitlab_metadata_from(project: GitLabProjectRecord) -> (r: Result<GitLabMetadata, AuditError>)
    ensures
        r is Ok <==> (rfc3339_seconds(project.created_at@) is Some && rfc3339_seconds(project.last_activity_at@) is Some),
        r matches Ok(m) ==> {
            &&& m.name == project.name
            &&& m.path_with_namespace == project.path_with_namespace
            &&& m.stars == project.star_count
            &&& m.forks == project.forks_count
            &&& m.open_issues == project.open_issues_count
            &&& m.is_archived == project.archived
            &&& Some(m.created_at) == rfc3339_seconds(project.created_at@)
            &&& Some(m.last_activity_at) == rfc3339_seconds(project.last_activity_at@)
        },
        r matches Err(e) ==> e is ParseError,
{
    let created_at = match parse_datetime(project.created_at.as_str()) {
        Ok(t) => t,
        Err(e) => return Err(e),
    };
    let last_activity_at = match parse_datetime(project.last_activity_at.as_str()) {
        Ok(t) => t,
        Err(e) => return Err(e),
    };
    Ok(GitLabMetadata {
        name: project.name,
        path_with_namespace: project.path_with_namespace,
        description: project.description,
        stars: project.star_count,
        forks: project.forks_count,
        open_issues: project.open_issues_count,
        is_archived: project.archived,
        created_at,
        last_activity_at,
    })
}

} // verus!
