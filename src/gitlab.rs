//! The second source host: project paths from repository URLs.
use vstd::prelude::*;
use crate::error::AuditError;
use crate::github::{invalid_url, path_after, path_after_host, trim_repo_url, trimmed_url};
use crate::text::string_of;

verus! {

/// The project path ("group/subgroup/project") that a repository URL names on the second host.
pub open spec fn gitlab_project_path(url: Seq<char>) -> Option<Seq<char>> {
    match path_after_host(trimmed_url(url), "gitlab.com:"@, "gitlab.com/"@) {
        Some(p) => if p.len() > 0 {
            Some(p)
        } else {
            None
        },
        None => None,
    }
}

/// Parse a repository URL on the second host into its project path.
pub fn parse_gitlab_url(url: &str) -> (r: Result<String, AuditError>)
    ensures
        r matches Ok(path) ==> gitlab_project_path(url@) == Some(path@),
        r is Err <==> gitlab_project_path(url@) is None,
        r matches Err(e) ==> e is ParseError,
{
    proof {
        reveal_strlit("gitlab.com:");
        reveal_strlit("gitlab.com/");
    }
    let u = trim_repo_url(url);
    match path_after(&u, "gitlab.com:", "gitlab.com/") {
        Some(p) => {
            if p.len() > 0 {
                Ok(string_of(p.as_slice()))
            } else {
                Err(invalid_url("Invalid GitLab URL: ", &u))
            }
        },
        None => Err(invalid_url("Invalid GitLab URL: ", &u)),
    }
}

} // verus!
