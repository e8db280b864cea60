//! The external scorecard service: which project to ask about, and what to do
//! after each request.
use vstd::prelude::*;
use crate::text::{chars_of, contains, contains_chars, string_of, sub_chars, trim_end_all, trim_end_all_chars};
use vstd::string::*;

verus! {

/// The repository that a scorecard describes.
#[derive(Clone, Debug)]
pub struct RepoInfo {
    pub name: String,
    pub commit: String,
}

/// One check of a scorecard.
#[derive(Clone, Debug)]
pub struct ScorecardCheck {
    pub name: String,
    pub score: i32,
    pub reason: String,
    pub details: Option<Vec<String>>,
}

/// The last position before `j` that holds `c`.
pub open spec fn last_index_before(s: Seq<char>, c: char, j: int) -> Option<int>
    decreases j,
{
    if j <= 0 || j > s.len() {
        None
    } else if s[j - 1] == c {
        Some(j - 1)
    } else {
        last_index_before(s, c, j - 1)
    }
}

/// The host, owner and name that a repository URL gives the scorecard
/// service: the last two '/'-separated parts of the URL without trailing
/// slashes, on a host the service covers.
pub open spec fn scorecard_target_of(url: Seq<char>) -> Option<(Seq<char>, Seq<char>, Seq<char>)> {
    let t = trim_end_all(url, "/"@);
    let platform = if contains(url, "github.com"@) {
        Some("github.com"@)
    } else if contains(url, "gitlab.com"@) {
        Some("gitlab.com"@)
    } else {
        None
    };
    match (last_index_before(t, '/', t.len() as int), platform) {
        (Some(i), Some(p)) => {
            let name = t.subrange(i + 1, t.len() as int);
            let owner = match last_index_before(t, '/', i) {
                Some(k) => t.subrange(k + 1, i),
                None => t.subrange(0, i),
            };
            Some((p, owner, name))
        },
        _ => None,
    }
}

proof fn lemma_last_index_in_range(s: Seq<char>, c: char, j: int)
    ensures
        last_index_before(s, c, j) matches Some(k) ==> 0 <= k < j && k < s.len(),
    decreases j,
{
    if j > 0 && j <= s.len() && s[j - 1] != c {
        lemma_last_index_in_range(s, c, j - 1);
    }
}

fn last_index(s: &Vec<char>, c: char, j: usize) -> (r: Option<usize>)
    requires
        j <= s@.len(),
    ensures
        r matches Some(k) ==> last_index_before(s@, c, j as int) == Some(k as int),
        r is None ==> last_index_before(s@, c, j as int) is None,
{
    let mut k: usize = j;
    while k > 0
        invariant
            k <= j <= s@.len(),
            last_index_before(s@, c, j as int) == last_index_before(s@, c, k as int),
        decreases k,
    {
        if s[k - 1] == c {
            return Some(k - 1);
        }
        k = k - 1;
    }
    None
}

/// Work out which project to ask the scorecard service about.
pub fn scorecard_target(repo_url: &str) -> (r: Option<(String, String, String)>)
    ensures
        r matches Some((p, o, n)) ==> scorecard_target_of(repo_url@) == Some((p@, o@, n@)),
        r is None ==> scorecard_target_of(repo_url@) is None,
{
    let url = chars_of(repo_url);
    let t = trim_end_all_chars(&url, &chars_of("/"));
    let platform = if contains_chars(&url, &chars_of("github.com")) {
        Some("github.com".to_owned())
    } else if contains_chars(&url, &chars_of("gitlab.com")) {
        Some("gitlab.com".to_owned())
    } else {
        None
    };
    let n = t.len();
    match (last_index(&t, '/', n), platform) {
        (Some(i), Some(p)) => {
            proof {
                lemma_last_index_in_range(t@, '/', n as int);
                lemma_last_index_in_range(t@, '/', i as int);
            }
            let name = sub_chars(&t, i + 1, n);
            let owner = match last_index(&t, '/', i) {
                Some(k) => sub_chars(&t, k + 1, i),
                None => sub_chars(&t, 0, i),
            };
            Some((p, string_of(owner.as_slice()), string_of(name.as_slice())))
        },
        _ => None,
    }
}

/// The scorecard request for a project.
pub fn scorecard_url(platform: &str, owner: &str, name: &str) -> (r: String)
    ensures
        r@ == "https://api.securityscorecards.dev/projects/"@ + platform@ + "/"@ + owner@ + "/"@
            + name@,
{
    "https://api.securityscorecards.dev/projects/".to_owned().concat(
        platform,
    ).concat("/").concat(owner).concat("/").concat(name)
}

/// What one scorecard request produced.
#[derive(Clone, Copy, Debug, PartialEq, Eq, Structural)]
pub enum ScorecardEvent {
    /// The request failed in transport.
    Transport,
    /// The service answered with this status code.
    Status(u16),
    /// A success whose body could not be read as a scorecard.
    Unreadable,
}

/// What to do after a scorecard request.
#[derive(Clone, Copy, Debug, PartialEq, Eq, Structural)]
pub enum ScorecardAction {
    /// Read the scorecard from the answer.
    Accept,
    /// The service has no scorecard for the project.
    NotFound,
    /// Wait the configured delay and ask again.
    Retry,
    /// Stop without a scorecard.
    GiveUp,
}

/// Decide what follows scorecard request number `attempt` (from 0), when
/// `max_retries` retries are allowed: read a success, stop on 404, and retry
/// anything else while retries remain. A missing scorecard is never an error.
pub fn scorecard_step(attempt: u32, max_retries: u32, event: ScorecardEvent) -> (r: ScorecardAction)
    ensures
        event == ScorecardEvent::Status(404) ==> r == ScorecardAction::NotFound,
        (event matches ScorecardEvent::Status(c) && 200 <= c <= 299) ==> r == ScorecardAction::Accept,
        !(event matches ScorecardEvent::Status(c) && (c == 404 || 200 <= c <= 299)) ==> r == (
        if attempt < max_retries {
            ScorecardAction::Retry
        } else {
            ScorecardAction::GiveUp
        }),
{
    match event {
        ScorecardEvent::Status(404) => ScorecardAction::NotFound,
        ScorecardEvent::Status(c) if 200 <= c && c <= 299 => ScorecardAction::Accept,
        _ => if attempt < max_retries {
            ScorecardAction::Retry
        } else {
            ScorecardAction::GiveUp
        },
    }
}

} // verus!
