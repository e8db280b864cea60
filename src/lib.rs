//! Supply-chain health assessment for a project's dependency graph: license
//! classification, footprint estimation, composite health scoring and report
//! summaries, with the decisions of the metadata fetchers.
pub mod audit;
pub mod config;
pub mod error;
pub mod fetch;
pub mod fmt;
pub mod footprint;
pub mod github;
pub mod gitlab;
pub mod graph;
pub mod license;
pub mod metadata;
pub mod openssf;
pub mod scoring;
pub mod text;
pub mod types;

pub use audit::{build_report, process_dependency, select_dependencies, FetchedMetadata, RepoHost};
pub use config::{
    AuditConfig, AuditConfigBuilder, FootprintThresholds, LicensePolicy, NetworkConfig,
    ScoringWeights, StalenessThresholds,
};
pub use error::AuditError;
pub use graph::{PackageGraph, PackageNode, ParsedDependency};
pub use metadata::{CrateMetadata, GitHubMetadata, GitLabMetadata};
pub use types::{
    AuditReport, AuditSummary, ComponentScores, DependencyHealth, DependencyMetrics,
    DependencySource, HealthStatus, LicenseRisk, RepositoryMetrics,
};
