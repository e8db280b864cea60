//! What the registry and the two source hosts report about a package.
//!
//! Timestamps are seconds since the Unix epoch.
use vstd::prelude::*;

verus! {

/// Registry metadata for a package version.
#[derive(Clone, Debug)]
pub struct CrateMetadata {
    pub name: String,
    pub version: String,
    pub description: Option<String>,
    pub license: Option<String>,
    pub repository: Option<String>,
    pub homepage: Option<String>,
    pub downloads: u64,
    pub recent_downloads: Option<u64>,
    pub created_at: i64,
    pub updated_at: i64,
    /// Number of published versions.
    pub version_count: u32,
    pub authors: Vec<String>,
    /// The registry marks this version as withdrawn.
    pub is_yanked: bool,
}

/// Repository metadata from the first source host.
#[derive(Clone, Debug)]
pub struct GitHubMetadata {
    pub name: String,
    pub full_name: String,
    pub description: Option<String>,
    pub stars: u32,
    pub forks: u32,
    pub open_issues: u32,
    pub is_archived: bool,
    pub created_at: i64,
    pub updated_at: i64,
    pub pushed_at: i64,
    /// Approximate contributor count, when the secondary lookup succeeded.
    pub contributors_count: Option<u32>,
    /// Whether the repository declares a security policy, when known.
    pub has_security_policy: Option<bool>,
}

/// Project metadata from the second source host.
#[derive(Clone, Debug)]
pub struct GitLabMetadata {
    pub name: String,
    pub path_with_namespace: String,
    pub description: Option<String>,
    pub stars: u32,
    pub forks: u32,
    pub open_issues: u32,
    pub is_archived: bool,
    pub created_at: i64,
    pub last_activity_at: i64,
}

} // verus!
