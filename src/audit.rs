//! Audit orchestration: which fetches a dependency needs, how each
//! dependency's fetched metadata becomes its health entry, and how the
//! entries become a report.
//!
//! The caller performs the fetches (concurrently, paced by the configured
//! delay) and hands each dependency's outcomes here; a failed fetch is an
//! `Err` outcome, which becomes a warning on that dependency's entry.
use vstd::prelude::*;
use crate::config::AuditConfig;
use crate::error::{error_text, AuditError};
use crate::footprint::{detail_of, estimate_footprint, footprint_score, footprint_warnings, reported_count};
use crate::graph::{ParsedDependency, PackageGraph};
use crate::license::{analyze_license, assessed_risk, assessed_warnings, texts};
use crate::metadata::{CrateMetadata, GitHubMetadata, GitLabMetadata};
use crate::scoring::{
    calculate_health_score, component_scores, determine_status, is_yanked, metrics_of,
    overall_score, status_for,
};
use crate::text::{chars_of, contains, contains_chars};
use crate::types::{summary_of, AuditReport, DependencyHealth, DependencySource};
use vstd::string::*;

verus! {

/// The source host that a repository URL points to. At most one host is asked.
#[derive(Clone, Copy, Debug, PartialEq, Eq, Structural)]
pub enum RepoHost {
    GitHub,
    GitLab,
    Neither,
}

/// The host to ask about a repository URL: the first host when the URL names
/// it, else the second when it names that one.
pub open spec fn host_of(url: Option<Seq<char>>) -> RepoHost {
    match url {
        Some(u) => if contains(u, "github.com"@) {
            RepoHost::GitHub
        } else if contains(u, "gitlab.com"@) {
            RepoHost::GitLab
        } else {
            RepoHost::Neither
        },
        None => RepoHost::Neither,
    }
}

/// Choose the source host to ask about a repository URL.
pub fn repository_host(url: Option<&str>) -> (r: RepoHost)
    ensures
        r == host_of(crate::graph::opt_view(url)),
{
    match url {
        Some(u) => {
            let v = chars_of(u);
            if contains_chars(&v, &chars_of("github.com")) {
                RepoHost::GitHub
            } else if contains_chars(&v, &chars_of("gitlab.com")) {
                RepoHost::GitLab
            } else {
                RepoHost::Neither
            }
        },
        None => RepoHost::Neither,
    }
}

/// Registry metadata is fetched only for registry packages.
pub fn needs_registry_fetch(dep: &ParsedDependency) -> (r: bool)
    ensures
        r == (dep.source is CratesIo),
{
    match dep.source {
        DependencySource::CratesIo => true,
        _ => false,
    }
}

/// What the fetches for one dependency produced; `None` where a fetch was not attempted.
#[derive(Clone, Debug)]
pub struct FetchedMetadata {
    pub crate_meta: Option<Result<CrateMetadata, AuditError>>,
    pub github_meta: Option<Result<GitHubMetadata, AuditError>>,
    pub gitlab_meta: Option<Result<GitLabMetadata, AuditError>>,
    /// Scorecard rating in tenths of a point, when one was found.
    pub openssf_score: Option<u32>,
}

/// The value of a successful fetch.
pub open spec fn fetched<T>(o: Option<Result<T, AuditError>>) -> Option<T> {
    match o {
        Some(Ok(v)) => Some(v),
        _ => None,
    }
}

/// A reference to an optional value.
pub open spec fn opt_ref<T>(o: &Option<T>) -> Option<&T> {
    match o {
        Some(v) => Some(v),
        None => None,
    }
}

/// The warning that a failed fetch leaves, if it failed.
pub open spec fn fetch_warning<T>(o: Option<Result<T, AuditError>>, what: Seq<char>) -> Seq<Seq<char>> {
    match o {
        Some(Err(e)) => seq!["Could not fetch "@ + what + " metadata: "@ + error_text(e)],
        _ => seq![],
    }
}

/// The license that the registry declares for the package, if any.
pub open spec fn declared_license(c: Option<CrateMetadata>) -> Option<Seq<char>> {
    match c {
        Some(m) => match m.license {
            Some(l) => Some(l@),
            None => None,
        },
        None => None,
    }
}

/// The warnings of a dependency's entry, in order: failed fetches, then
/// license findings, then footprint findings.
pub open spec fn entry_warnings(
    dep: ParsedDependency,
    f: FetchedMetadata,
    config: AuditConfig,
    graph: PackageGraph,
) -> Seq<Seq<char>> {
    let c = fetched(f.crate_meta);
    let count = reported_count(graph, dep.package_id as int);
    fetch_warning(f.crate_meta, "crates.io"@) + fetch_warning(f.github_meta, "GitHub"@)
        + fetch_warning(f.gitlab_meta, "GitLab"@) + assessed_warnings(
        declared_license(c),
        config.license_policy,
    ) + footprint_warnings(
        count,
        footprint_score(count, detail_of(graph, dep.package_id as int)),
        config.footprint_thresholds,
    )
}

fn keep_fetched<T>(o: Option<Result<T, AuditError>>, what: &str, warnings: &mut Vec<String>) -> (r: Option<T>)
    ensures
        r == fetched(o),
        texts(final(warnings)@) == texts(old(warnings)@) + fetch_warning(o, what@),
{
    match o {
        Some(Ok(v)) => {
            assert(texts(warnings@) =~= texts(warnings@) + fetch_warning(o, what@));
            Some(v)
        },
        Some(Err(e)) => {
            let msg = "Could not fetch ".to_owned().concat(what).concat(
                " metadata: ",
            ).concat(e.describe().as_str());
            let ghost before = texts(warnings@);
            warnings.push(msg);
            assert(texts(warnings@) =~= before + fetch_warning(o, what@));
            None
        },
        None => {
            assert(texts(warnings@) =~= texts(warnings@) + fetch_warning(o, what@));
            None
        },
    }
}

fn append_all(warnings: &mut Vec<String>, more: Vec<String>)
    ensures
        texts(final(warnings)@) == texts(old(warnings)@) + texts(more@),
{
    let mut more = more;
    let ghost added = more@;
    warnings.append(&mut more);
    assert(texts(warnings@) =~= texts(old(warnings)@) + texts(added));
}

/// The characters of an optional string.
pub open spec fn opt_text(o: Option<String>) -> Option<Seq<char>> {
    match o {
        Some(t) => Some(t@),
        None => None,
    }
}

/// `r` is the health entry of `dep` built at time `now` from the fetch outcomes
/// `outcome`: its identity and source are the dependency's; its license is the
/// one the registry declared; its scores, status, license tier, footprint and
/// warnings are computed from whatever metadata arrived.
pub open spec fn is_entry_for(
    r: DependencyHealth,
    dep: ParsedDependency,
    outcome: FetchedMetadata,
    now: i64,
    config: AuditConfig,
    graph: PackageGraph,
) -> bool {
    let c = fetched(outcome.crate_meta);
    let gh = fetched(outcome.github_meta);
    let gl = fetched(outcome.gitlab_meta);
    let scores = component_scores(
        opt_ref(&c),
        opt_ref(&gh),
        opt_ref(&gl),
        outcome.openssf_score,
        now,
        config.staleness_thresholds,
    );
    &&& r.name == dep.name
    &&& r.version == dep.version
    &&& r.is_direct == dep.is_direct
    &&& r.source == dep.source
    &&& r.health_score == overall_score(scores, config.scoring_weights, is_yanked(opt_ref(&c)))
    &&& r.status == status_for(r.health_score as int)
    &&& r.metrics == Some(
        metrics_of(opt_ref(&c), opt_ref(&gh), opt_ref(&gl), outcome.openssf_score, now, scores),
    )
    &&& opt_text(r.license) == declared_license(c)
    &&& r.license_risk == assessed_risk(declared_license(c), config.license_policy)
    &&& r.is_yanked == is_yanked(opt_ref(&c))
    &&& r.footprint_risk == Some(
        footprint_score(
            reported_count(graph, dep.package_id as int),
            detail_of(graph, dep.package_id as int),
        ) as u32,
    )
    &&& texts(r.warnings@) == entry_warnings(dep, outcome, config, graph)
}

/// Build one dependency's health entry from what its fetches produced, at
/// time `now` (seconds since the Unix epoch). Failed fetches become warnings;
/// the score comes from whatever metadata did arrive.
pub fn process_dependency(
    dep: ParsedDependency,
    outcome: FetchedMetadata,
    now: i64,
    config: &AuditConfig,
    graph: &PackageGraph,
) -> (r: DependencyHealth)
    requires
        graph.wf(),
    ensures
        is_entry_for(r, dep, outcome, now, *config, *graph),
{
    let mut warnings: Vec<String> = Vec::new();
    let ghost f = outcome;
    let crate_meta = keep_fetched(outcome.crate_meta, "crates.io", &mut warnings);
    let github_meta = keep_fetched(outcome.github_meta, "GitHub", &mut warnings);
    let gitlab_meta = keep_fetched(outcome.gitlab_meta, "GitLab", &mut warnings);
    let (health_score, _scores, metrics) = calculate_health_score(
        crate_meta.as_ref(),
        github_meta.as_ref(),
        gitlab_meta.as_ref(),
        outcome.openssf_score,
        now,
        config,
    );
    let status = determine_status(health_score, config);
    let license: Option<&str> = match &crate_meta {
        Some(m) => match &m.license {
            Some(l) => Some(l.as_str()),
            None => None,
        },
        None => None,
    };
    let (license_risk, license_warnings) = analyze_license(license, &config.license_policy);
    append_all(&mut warnings, license_warnings);
    let (footprint, footprint_warnings) = estimate_footprint(
        dep.package_id,
        graph,
        &config.footprint_thresholds,
    );
    append_all(&mut warnings, footprint_warnings);
    let license_text = match license {
        Some(l) => Some(l.to_owned()),
        None => None,
    };
    let yanked = match &crate_meta {
        Some(m) => m.is_yanked,
        None => false,
    };
    proof {
        assert(texts(warnings@) =~= entry_warnings(dep, f, *config, *graph));
    }
    DependencyHealth {
        name: dep.name,
        version: dep.version,
        is_direct: dep.is_direct,
        health_score,
        status,
        license: license_text,
        license_risk,
        footprint_risk: Some(footprint),
        source: dep.source,
        metrics,
        warnings,
        is_yanked: yanked,
    }
}

/// `name` is on the ignore list.
pub open spec fn is_ignored(name: Seq<char>, ignored: Seq<String>) -> bool {
    exists|i: int| 0 <= i < ignored.len() && #[trigger] ignored[i]@ == name
}

/// The dependencies that are not on the ignore list, in order.
pub open spec fn selected(deps: Seq<ParsedDependency>, ignored: Seq<String>) -> Seq<ParsedDependency> {
    deps.filter(|d: ParsedDependency| !is_ignored(d.name@, ignored))
}

pub fn same_text(a: &str, b: &str) -> (r: bool)
    ensures
        r == (a@ == b@),
{
    let x = chars_of(a);
    let y = chars_of(b);
    if x.len() != y.len() {
        return false;
    }
    let r = crate::text::matches_at(&x, &y, 0);
    assert(x@.subrange(0, y@.len() as int) =~= x@);
    r
}

pub fn ignored_name(name: &str, ignored: &Vec<String>) -> (r: bool)
    ensures
        r == is_ignored(name@, ignored@),
{
    let mut i: usize = 0;
    while i < ignored.len()
        invariant
            i <= ignored@.len(),
            forall|j: int| 0 <= j < i ==> ignored@[j]@ != name@,
        decreases ignored@.len() - i,
    {
        if same_text(ignored[i].as_str(), name) {
            return true;
        }
        i = i + 1;
    }
    false
}

/// Leave out the dependencies on the ignore list, keeping the order of the rest.
pub fn select_dependencies(deps: Vec<ParsedDependency>, ignored: &Vec<String>) -> (r: Vec<ParsedDependency>)
    ensures
        r@ == selected(deps@, ignored@),
{
    let ghost all = deps@;
    let mut kept: Vec<ParsedDependency> = Vec::new();
    let mut rest = deps;
    let ghost n = all.len();
    let ghost mut i: int = 0;
    while rest.len() > 0
        invariant
            n == all.len(),
            0 <= i <= n,
            rest@ == all.subrange(i, n as int),
            kept@ == selected(all.subrange(0, i), ignored@),
        decreases rest@.len(),
    {
        let d = rest.remove(0);
        proof {
            assert(d == all[i]);
            assert(all.subrange(0, i + 1).drop_last() =~= all.subrange(0, i));
            reveal(Seq::filter);
        }
        if !ignored_name(d.name.as_str(), ignored) {
            kept.push(d);
        }
        proof {
            i = i + 1;
            assert(rest@ =~= all.subrange(i, n as int));
        }
    }
    assert(all.subrange(0, n as int) =~= all);
    kept
}

/// Build the report: one entry per dependency, in order, whatever its fetches
/// produced, and the summary of those entries.
pub fn build_report(
    project_name: String,
    project_path: String,
    timestamp: i64,
    deps: Vec<ParsedDependency>,
    outcomes: Vec<FetchedMetadata>,
    now: i64,
    config: &AuditConfig,
    graph: &PackageGraph,
) -> (r: AuditReport)
    requires
        graph.wf(),
        deps@.len() == outcomes@.len(),
    ensures
        r.project_name == project_name,
        r.project_path == project_path,
        r.timestamp == timestamp,
        r.dependencies@.len() == deps@.len(),
        forall|i: int|
            0 <= i < deps@.len() ==> is_entry_for(
                #[trigger] r.dependencies@[i],
                deps@[i],
                outcomes@[i],
                now,
                *config,
                *graph,
            ),
        r.summary == summary_of(r.dependencies@),
{
    let mut report = AuditReport::new(project_name, project_path, timestamp);
    let ghost ds = deps@;
    let ghost os = outcomes@;
    let mut deps = deps;
    let mut outcomes = outcomes;
    let ghost n = ds.len();
    let ghost mut i: int = 0;
    while deps.len() > 0
        invariant
            graph.wf(),
            n == ds.len(),
            n == os.len(),
            0 <= i <= n,
            deps@ == ds.subrange(i, n as int),
            outcomes@ == os.subrange(i, n as int),
            report.project_name == project_name,
            report.project_path == project_path,
            report.timestamp == timestamp,
            report.dependencies@.len() == i,
            forall|j: int|
                0 <= j < i ==> is_entry_for(
                    #[trigger] report.dependencies@[j],
                    ds[j],
                    os[j],
                    now,
                    *config,
                    *graph,
                ),
        decreases deps@.len(),
    {
        let d = deps.remove(0);
        let o = outcomes.remove(0);
        let entry = process_dependency(d, o, now, config, graph);
        report.dependencies.push(entry);
        proof {
            i = i + 1;
            assert(deps@ =~= ds.subrange(i, n as int));
            assert(outcomes@ =~= os.subrange(i, n as int));
        }
    }
    report.compute_summary();
    report
}

} // verus!
