//! The resolved package graph of a project, and what is read from it: the
//! project name, each package's source kind, and the list of dependencies.
//!
//! Packages are referenced by their index in `PackageGraph::nodes`.
use vstd::prelude::*;
use crate::error::AuditError;
use crate::text::{chars_of, find, find_chars, string_of, sub_chars};
use crate::types::DependencySource;

verus! {

/// Feature and build-dependency counts of a package.
#[derive(Clone, Copy, Debug, PartialEq, Eq, Structural)]
pub struct PackageDetail {
    /// Number of declared features.
    pub feature_count: usize,
    /// Number of build-time dependencies.
    pub build_dep_count: usize,
}

/// One package of the graph.
#[derive(Clone, Debug)]
pub struct PackageNode {
    pub name: String,
    pub version: String,
    /// The package's source, as the resolver spells it ("registry+...", "git+...", "path+...").
    pub source: Option<String>,
    /// The directory of the package manifest, when known.
    pub manifest_dir: Option<String>,
    /// Feature and build-dependency counts, when known.
    pub detail: Option<PackageDetail>,
    /// Names of the dependencies that the package's manifest declares.
    pub declared_deps: Vec<String>,
    /// Indices of the packages it depends on in the resolved graph.
    pub deps: Vec<usize>,
}

/// A project's packages with their resolved dependency edges.
#[derive(Clone, Debug)]
pub struct PackageGraph {
    pub nodes: Vec<PackageNode>,
    /// Whether dependency resolution data is present.
    pub resolved: bool,
    /// The root package, if the project has one.
    pub root: Option<usize>,
    /// The workspace members, used when there is no root package.
    pub workspace_members: Vec<usize>,
}

/// A dependency of the project, as read from its package graph.
#[derive(Clone, Debug)]
pub struct ParsedDependency {
    pub name: String,
    pub version: String,
    pub is_direct: bool,
    pub source: DependencySource,
    /// Index of the package in the graph.
    pub package_id: usize,
}

/// The view of a dependency source.
pub enum SourceView {
    CratesIo,
    Git(Seq<char>),
    Path(Seq<char>),
    Unknown,
}

impl DependencySource {
    pub open spec fn view(&self) -> SourceView {
        match self {
            DependencySource::CratesIo => SourceView::CratesIo,
            DependencySource::Git { url } => SourceView::Git(url@),
            DependencySource::Path { path } => SourceView::Path(path@),
            DependencySource::Unknown => SourceView::Unknown,
        }
    }
}

impl PackageGraph {
    /// The dependency edges of each node.
    pub open spec fn adjacency(&self) -> Seq<Seq<usize>> {
        self.nodes@.map_values(|n: PackageNode| n.deps@)
    }

    /// Every index in the graph names one of its nodes.
    pub open spec fn wf(&self) -> bool {
        &&& forall|i: int, e: int|
            0 <= i < self.nodes@.len() && 0 <= e < self.nodes@[i].deps@.len()
                ==> #[trigger] self.nodes@[i].deps@[e] < self.nodes@.len()
        &&& self.root matches Some(r) ==> r < self.nodes@.len()
        &&& forall|j: int|
            0 <= j < self.workspace_members@.len() ==> #[trigger] self.workspace_members@[j]
                < self.nodes@.len()
    }

    /// Check that every index in the graph names one of its nodes.
    pub fn is_well_formed(&self) -> (r: bool)
        ensures
            r == self.wf(),
    {
        let n = self.nodes.len();
        let mut i: usize = 0;
        while i < n
            invariant
                n == self.nodes@.len(),
                i <= n,
                forall|a: int, e: int|
                    0 <= a < i && 0 <= e < self.nodes@[a].deps@.len()
                        ==> #[trigger] self.nodes@[a].deps@[e] < n,
            decreases n - i,
        {
            let deps = &self.nodes[i].deps;
            let mut j: usize = 0;
            while j < deps.len()
                invariant
                    n == self.nodes@.len(),
                    i < n,
                    deps@ == self.nodes@[i as int].deps@,
                    j <= deps@.len(),
                    forall|a: int, e: int|
                        0 <= a < i && 0 <= e < self.nodes@[a].deps@.len()
                            ==> #[trigger] self.nodes@[a].deps@[e] < n,
                    forall|e: int| 0 <= e < j ==> #[trigger] deps@[e] < n,
                decreases deps@.len() - j,
            {
                if deps[j] >= n {
                    return false;
                }
                j = j + 1;
            }
            i = i + 1;
        }
        if let Some(r) = self.root {
            if r >= n {
                return false;
            }
        }
        let mut k: usize = 0;
        while k < self.workspace_members.len()
            invariant
                n == self.nodes@.len(),
                k <= self.workspace_members@.len(),
                forall|j: int| 0 <= j < k ==> #[trigger] self.workspace_members@[j] < n,
            decreases self.workspace_members@.len() - k,
        {
            if self.workspace_members[k] >= n {
                return false;
            }
            k = k + 1;
        }
        true
    }
}

/// `s` starts with `p`.
pub open spec fn starts_with(s: Seq<char>, p: Seq<char>) -> bool {
    p.len() <= s.len() && s.subrange(0, p.len() as int) == p
}

fn has_prefix(s: &Vec<char>, p: &str) -> (r: bool)
    ensures
        r == starts_with(s@, p@),
{
    let pv = chars_of(p);
    if pv.len() > s.len() {
        return false;
    }
    crate::text::matches_at(s, &pv, 0)
}

/// The text of `s` before its first `?`.
pub open spec fn before_query(s: Seq<char>) -> Seq<char> {
    match find(s, seq!['?']) {
        Some(i) => s.subrange(0, i),
        None => s,
    }
}

/// The source kind that a resolver's source string names; a package without
/// one is a path package in its manifest directory ("unknown" when that is not known).
pub open spec fn source_kind(source: Option<Seq<char>>, manifest_dir: Option<Seq<char>>) -> SourceView {
    match source {
        Some(s) => if starts_with(s, "registry+"@) {
            SourceView::CratesIo
        } else if starts_with(s, "git+"@) {
            SourceView::Git(before_query(s.subrange(4, s.len() as int)))
        } else if starts_with(s, "path+"@) {
            if starts_with(s, "path+file://"@) {
                SourceView::Path(s.subrange(12, s.len() as int))
            } else {
                SourceView::Path(s.subrange(5, s.len() as int))
            }
        } else {
            SourceView::Unknown
        },
        None => match manifest_dir {
            Some(d) => SourceView::Path(d),
            None => SourceView::Path("unknown"@),
        },
    }
}

pub open spec fn opt_view(o: Option<&str>) -> Option<Seq<char>> {
    match o {
        Some(s) => Some(s@),
        None => None,
    }
}

/// Determine the source of a package from its resolver source string.
pub fn determine_source(source: Option<&str>, manifest_dir: Option<&str>) -> (r: DependencySource)
    ensures
        r.view() == source_kind(opt_view(source), opt_view(manifest_dir)),
{
    proof {
        reveal_strlit("registry+");
        reveal_strlit("git+");
        reveal_strlit("path+");
        reveal_strlit("path+file://");
    }
    match source {
        Some(s) => {
            let v = chars_of(s);
            if has_prefix(&v, "registry+") {
                DependencySource::CratesIo
            } else if has_prefix(&v, "git+") {
                let rest = sub_chars(&v, 4, v.len());
                let q = vec!['?'];
                assert(q@ =~= seq!['?']);
                let url = match find_chars(&rest, &q) {
                    Some(i) => {
                        proof {
                            crate::text::lemma_find_from_occurs(rest@, q@, 0);
                        }
                        sub_chars(&rest, 0, i)
                    },
                    None => rest,
                };
                DependencySource::Git { url: string_of(url.as_slice()) }
            } else if has_prefix(&v, "path+") {
                let path = if has_prefix(&v, "path+file://") {
                    sub_chars(&v, 12, v.len())
                } else {
                    sub_chars(&v, 5, v.len())
                };
                DependencySource::Path { path: string_of(path.as_slice()) }
            } else {
                DependencySource::Unknown
            }
        },
        None => match manifest_dir {
            Some(d) => DependencySource::Path { path: d.to_owned() },
            None => DependencySource::Path { path: "unknown".to_owned() },
        },
    }
}

/// The project name: the root package's name, else the first package's.
pub open spec fn project_name_of(g: PackageGraph) -> Option<Seq<char>> {
    if g.resolved && g.root is Some {
        Some(g.nodes@[g.root->0 as int].name@)
    } else if g.nodes@.len() > 0 {
        Some(g.nodes@[0].name@)
    } else {
        None
    }
}

/// Get the name of the project from its package graph.
pub fn get_project_name(graph: &PackageGraph) -> (r: Result<String, AuditError>)
    requires
        graph.wf(),
    ensures
        r matches Ok(name) ==> project_name_of(*graph) == Some(name@),
        r is Err <==> project_name_of(*graph) is None,
        r matches Err(e) ==> e is ParseError,
{
    if graph.resolved {
        if let Some(root) = graph.root {
            return Ok(graph.nodes[root].name.clone());
        }
    }
    if graph.nodes.len() > 0 {
        Ok(graph.nodes[0].name.clone())
    } else {
        Err(AuditError::parse("Could not determine project name"))
    }
}

/// The root packages: the root when there is one, else the workspace members.
pub open spec fn root_ids(g: PackageGraph) -> Seq<usize> {
    match g.root {
        Some(r) => seq![r],
        None => g.workspace_members@,
    }
}

/// The package at index `i` is a root package.
pub open spec fn is_root(g: PackageGraph, i: int) -> bool {
    exists|k: int| 0 <= k < root_ids(g).len() && root_ids(g)[k] == i
}

/// The first package at or after index `i` named `name`.
pub open spec fn first_named_from(g: PackageGraph, name: Seq<char>, i: int) -> Option<int>
    decreases g.nodes@.len() - i,
{
    if i < 0 || i >= g.nodes@.len() {
        None
    } else if g.nodes@[i].name@ == name {
        Some(i)
    } else {
        first_named_from(g, name, i + 1)
    }
}

/// Some root package declares a dependency whose name first names package `i`.
pub open spec fn is_direct_dep(g: PackageGraph, i: int) -> bool {
    exists|k: int, d: int|
        0 <= k < root_ids(g).len() && 0 <= d < g.nodes@[root_ids(g)[k] as int].declared_deps@.len()
            && first_named_from(g, #[trigger] g.nodes@[root_ids(g)[k] as int].declared_deps@[d]@, 0)
            == Some(i)
}

/// The indices of the packages among the first `k` that are not roots, in order.
pub open spec fn dependency_indices(g: PackageGraph, k: nat) -> Seq<int>
    decreases k,
{
    if k == 0 {
        seq![]
    } else if is_root(g, k - 1) {
        dependency_indices(g, (k - 1) as nat)
    } else {
        dependency_indices(g, (k - 1) as nat).push(k - 1)
    }
}

fn first_named(g: &PackageGraph, name: &str) -> (r: Option<usize>)
    ensures
        r matches Some(i) ==> first_named_from(*g, name@, 0) == Some(i as int),
        r is None ==> first_named_from(*g, name@, 0) is None,
{
    let n = g.nodes.len();
    let mut i: usize = 0;
    while i < n
        invariant
            n == g.nodes@.len(),
            i <= n,
            first_named_from(*g, name@, 0) == first_named_from(*g, name@, i as int),
        decreases n - i,
    {
        if crate::audit::same_text(g.nodes[i].name.as_str(), name) {
            return Some(i);
        }
        i = i + 1;
    }
    None
}

fn root_list(g: &PackageGraph) -> (r: Vec<usize>)
    ensures
        r@ == root_ids(*g),
{
    match g.root {
        Some(x) => {
            let v = vec![x];
            assert(v@ =~= seq![x]);
            v
        },
        None => g.workspace_members.clone(),
    }
}

fn direct_flags(g: &PackageGraph, roots: &Vec<usize>) -> (r: Vec<bool>)
    requires
        g.wf(),
        roots@ == root_ids(*g),
    ensures
        r@.len() == g.nodes@.len(),
        forall|i: int| 0 <= i < r@.len() ==> r@[i] == is_direct_dep(*g, i),
{
    let n = g.nodes.len();
    let mut flags: Vec<bool> = Vec::new();
    let mut v: usize = 0;
    while v < n
        invariant
            v <= n,
            flags@.len() == v,
            forall|w: int| 0 <= w < v ==> !flags@[w],
        decreases n - v,
    {
        flags.push(false);
        v = v + 1;
    }
    let ghost rs = root_ids(*g);
    let mut k: usize = 0;
    while k < roots.len()
        invariant
            g.wf(),
            roots@ == rs,
            rs == root_ids(*g),
            n == g.nodes@.len(),
            flags@.len() == n,
            k <= rs.len(),
            forall|w: int|
                0 <= w < n ==> (flags@[w] <==> exists|a: int, d: int|
                    0 <= a < k && 0 <= d < g.nodes@[rs[a] as int].declared_deps@.len()
                        && first_named_from(*g, #[trigger] g.nodes@[rs[a] as int].declared_deps@[d]@, 0)
                        == Some(w)),
        decreases rs.len() - k,
    {
        let root = roots[k];
        proof {
            if g.root is None {
                assert(g.workspace_members@[k as int] < n);
            }
        }
        let declared = &g.nodes[root].declared_deps;
        let mut j: usize = 0;
        while j < declared.len()
            invariant
                g.wf(),
                roots@ == rs,
                rs == root_ids(*g),
                n == g.nodes@.len(),
                flags@.len() == n,
                k < rs.len(),
                root == rs[k as int],
                root < n,
                declared@ == g.nodes@[root as int].declared_deps@,
                j <= declared@.len(),
                forall|w: int|
                    0 <= w < n ==> (flags@[w] <==> (exists|a: int, d: int|
                        0 <= a < k && 0 <= d < g.nodes@[rs[a] as int].declared_deps@.len()
                            && first_named_from(*g, #[trigger] g.nodes@[rs[a] as int].declared_deps@[d]@, 0)
                            == Some(w)) || exists|d: int|
                        0 <= d < j && first_named_from(*g, declared@[d]@, 0) == Some(w)),
            decreases declared@.len() - j,
        {
            match first_named(g, declared[j].as_str()) {
                Some(t) => {
                    proof {
                        lemma_first_named_in_range(*g, declared@[j as int]@, 0);
                    }
                    flags.set(t, true);
                },
                None => {},
            }
            j = j + 1;
        }
        proof {
            assert forall|w: int| 0 <= w < n implies (flags@[w] <==> exists|a: int, d: int|
                0 <= a < k + 1 && 0 <= d < g.nodes@[rs[a] as int].declared_deps@.len()
                    && first_named_from(*g, #[trigger] g.nodes@[rs[a] as int].declared_deps@[d]@, 0)
                    == Some(w)) by {
                if flags@[w] {
                    if exists|d: int| 0 <= d < declared@.len() && first_named_from(*g, declared@[d]@, 0) == Some(w) {
                        let d = choose|d: int| 0 <= d < declared@.len() && first_named_from(*g, declared@[d]@, 0) == Some(w);
                        assert(first_named_from(*g, g.nodes@[rs[k as int] as int].declared_deps@[d]@, 0) == Some(w));
                    }
                } else {
                    if exists|a: int, d: int|
                        0 <= a < k + 1 && 0 <= d < g.nodes@[rs[a] as int].declared_deps@.len()
                            && first_named_from(*g, #[trigger] g.nodes@[rs[a] as int].declared_deps@[d]@, 0)
                            == Some(w) {
                        let (a, d) = choose|a: int, d: int|
                            0 <= a < k + 1 && 0 <= d < g.nodes@[rs[a] as int].declared_deps@.len()
                                && first_named_from(*g, #[trigger] g.nodes@[rs[a] as int].declared_deps@[d]@, 0)
                                == Some(w);
                        if a == k {
                            assert(first_named_from(*g, declared@[d]@, 0) == Some(w));
                        }
                    }
                }
            }
        }
        k = k + 1;
    }
    flags
}

proof fn lemma_first_named_in_range(g: PackageGraph, name: Seq<char>, i: int)
    requires
        0 <= i,
    ensures
        first_named_from(g, name, i) matches Some(k) ==> 0 <= k < g.nodes@.len(),
    decreases g.nodes@.len() - i,
{
    if i < g.nodes@.len() && g.nodes@[i].name@ != name {
        lemma_first_named_in_range(g, name, i + 1);
    }
}

fn contains_index(v: &Vec<usize>, x: usize) -> (r: bool)
    ensures
        r == exists|k: int| 0 <= k < v@.len() && v@[k] == x,
{
    let mut k: usize = 0;
    while k < v.len()
        invariant
            k <= v@.len(),
            forall|j: int| 0 <= j < k ==> v@[j] != x,
        decreases v@.len() - k,
    {
        if v[k] == x {
            return true;
        }
        k = k + 1;
    }
    false
}

/// Extract every dependency of the project from its package graph: each
/// package that is not a root, in graph order, marked direct when a root
/// package declares it. Without resolution data this is a parse error.
pub fn extract_dependencies(graph: &PackageGraph) -> (r: Result<Vec<ParsedDependency>, AuditError>)
    requires
        graph.wf(),
    ensures
        r is Err <==> !graph.resolved,
        r matches Err(e) ==> e is ParseError,
        r matches Ok(v) ==> {
            let idx = dependency_indices(*graph, graph.nodes@.len());
            &&& v@.len() == idx.len()
            &&& forall|j: int|
                0 <= j < v@.len() ==> {
                    let i = idx[j];
                    &&& (#[trigger] v@[j]).package_id == i
                    &&& v@[j].name@ == graph.nodes@[i].name@
                    &&& v@[j].version@ == graph.nodes@[i].version@
                    &&& v@[j].is_direct == is_direct_dep(*graph, i)
                    &&& v@[j].source.view() == source_kind(
                        match graph.nodes@[i].source {
                            Some(s) => Some(s@),
                            None => None,
                        },
                        match graph.nodes@[i].manifest_dir {
                            Some(s) => Some(s@),
                            None => None,
                        },
                    )
                }
        },
{
    if !graph.resolved {
        return Err(AuditError::parse("No dependency resolution found"));
    }
    let roots = root_list(graph);
    let direct = direct_flags(graph, &roots);
    let n = graph.nodes.len();
    let mut deps: Vec<ParsedDependency> = Vec::new();
    let mut i: usize = 0;
    while i < n
        invariant
            graph.wf(),
            n == graph.nodes@.len(),
            roots@ == root_ids(*graph),
            direct@.len() == n,
            forall|w: int| 0 <= w < n ==> direct@[w] == is_direct_dep(*graph, w),
            i <= n,
            ({
                let idx = dependency_indices(*graph, i as nat);
                &&& deps@.len() == idx.len()
                &&& forall|j: int|
                    0 <= j < deps@.len() ==> {
                        let p = idx[j];
                        &&& (#[trigger] deps@[j]).package_id == p
                        &&& 0 <= p < n
                        &&& deps@[j].name@ == graph.nodes@[p].name@
                        &&& deps@[j].version@ == graph.nodes@[p].version@
                        &&& deps@[j].is_direct == is_direct_dep(*graph, p)
                        &&& deps@[j].source.view() == source_kind(
                            match graph.nodes@[p].source {
                                Some(s) => Some(s@),
                                None => None,
                            },
                            match graph.nodes@[p].manifest_dir {
                                Some(s) => Some(s@),
                                None => None,
                            },
                        )
                    }
            }),
        decreases n - i,
    {
        if !contains_index(&roots, i) {
            let node = &graph.nodes[i];
            let source = match &node.source {
                Some(s) => Some(s.as_str()),
                None => None,
            };
            let dir = match &node.manifest_dir {
                Some(s) => Some(s.as_str()),
                None => None,
            };
            let entry = ParsedDependency {
                name: node.name.as_str().to_owned(),
                version: node.version.as_str().to_owned(),
                is_direct: direct[i],
                source: determine_source(source, dir),
                package_id: i,
            };
            deps.push(entry);
        }
        i = i + 1;
    }
    Ok(deps)
}

} // verus!
