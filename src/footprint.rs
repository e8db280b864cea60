//! Footprint estimation for dependencies over a resolved package graph.
//!
//! Footprint risk is held in hundredths: 0-100 stands for 0.0-1.0.
use vstd::prelude::*;
use crate::config::FootprintThresholds;
use crate::fmt::{decimal, decimal_text, hundredths, hundredths_text};
use crate::graph::PackageGraph;
use vstd::string::*;

verus! {

/// Nodes reached from `start` within `k` steps along the edges of `adj`.
pub open spec fn reach_within(adj: Seq<Seq<usize>>, start: int, k: nat) -> Seq<bool>
    decreases k,
{
    if k == 0 {
        Seq::new(adj.len(), |v: int| v == start)
    } else {
        step(adj, reach_within(adj, start, (k - 1) as nat))
    }
}

/// `v` is a successor of some node marked in `seen`.
pub open spec fn hit(adj: Seq<Seq<usize>>, seen: Seq<bool>, v: int) -> bool {
    exists|u: int, e: int|
        0 <= u < adj.len() && 0 <= e < adj[u].len() && seen[u] && #[trigger] adj[u][e] == v
}

/// One more step from the marked nodes.
pub open spec fn step(adj: Seq<Seq<usize>>, seen: Seq<bool>) -> Seq<bool> {
    Seq::new(adj.len(), |v: int| seen[v] || hit(adj, seen, v))
}

/// The number of marked entries.
pub open spec fn count_true(s: Seq<bool>) -> nat
    decreases s.len(),
{
    if s.len() == 0 {
        0
    } else {
        count_true(s.drop_last()) + if s.last() {
            1nat
        } else {
            0nat
        }
    }
}

/// The number of packages that `start` depends on, directly or not, itself excluded;
/// 0 without a resolved graph or for an unknown package.
pub open spec fn transitive_count(g: PackageGraph, start: int) -> nat {
    if !g.resolved || start < 0 || start >= g.nodes@.len() {
        0
    } else {
        (count_true(reach_within(g.adjacency(), start, g.nodes@.len())) - 1) as nat
    }
}

proof fn lemma_reach_fixpoint(adj: Seq<Seq<usize>>, start: int, k: nat, m: nat)
    requires
        k <= m,
        step(adj, reach_within(adj, start, k)) == reach_within(adj, start, k),
    ensures
        reach_within(adj, start, m) == reach_within(adj, start, k),
    decreases m - k,
{
    if m > k {
        lemma_reach_fixpoint(adj, start, k, (m - 1) as nat);
        assert(reach_within(adj, start, m) == step(adj, reach_within(adj, start, (m - 1) as nat)));
    }
}

proof fn lemma_reach_len(adj: Seq<Seq<usize>>, start: int, k: nat)
    ensures
        reach_within(adj, start, k).len() == adj.len(),
    decreases k,
{
    if k > 0 {
        lemma_reach_len(adj, start, (k - 1) as nat);
    }
}

proof fn lemma_start_reached(adj: Seq<Seq<usize>>, start: int, k: nat)
    requires
        0 <= start < adj.len(),
    ensures
        reach_within(adj, start, k)[start],
    decreases k,
{
    if k > 0 {
        lemma_start_reached(adj, start, (k - 1) as nat);
        lemma_reach_len(adj, start, (k - 1) as nat);
    }
}

proof fn lemma_count_true_pos(s: Seq<bool>, i: int)
    requires
        0 <= i < s.len(),
        s[i],
    ensures
        count_true(s) >= 1,
    decreases s.len(),
{
    if i < s.len() - 1 {
        lemma_count_true_pos(s.drop_last(), i);
    }
}

proof fn lemma_count_true_bound(s: Seq<bool>)
    ensures
        count_true(s) <= s.len(),
    decreases s.len(),
{
    if s.len() > 0 {
        lemma_count_true_bound(s.drop_last());
    }
}

/// One step from the marked nodes of `seen`.
fn step_once(g: &PackageGraph, seen: &Vec<bool>) -> (r: Vec<bool>)
    requires
        g.wf(),
        seen@.len() == g.nodes@.len(),
    ensures
        r@ == step(g.adjacency(), seen@),
{
    let n = g.nodes.len();
    let ghost adj = g.adjacency();
    let mut next: Vec<bool> = Vec::new();
    let mut v: usize = 0;
    while v < n
        invariant
            n == g.nodes@.len(),
            seen@.len() == n,
            v <= n,
            next@.len() == v,
            forall|w: int| 0 <= w < v ==> next@[w] == seen@[w],
        decreases n - v,
    {
        next.push(seen[v]);
        v = v + 1;
    }
    let mut u: usize = 0;
    while u < n
        invariant
            g.wf(),
            adj == g.adjacency(),
            n == g.nodes@.len(),
            seen@.len() == n,
            next@.len() == n,
            u <= n,
            forall|w: int|
                0 <= w < n ==> (next@[w] <==> (seen@[w] || exists|x: int, e: int|
                    0 <= x < u && 0 <= e < adj[x].len() && seen@[x] && #[trigger] adj[x][e]
                        == w)),
        decreases n - u,
    {
        if seen[u] {
            let deps = &g.nodes[u].deps;
            let mut j: usize = 0;
            while j < deps.len()
                invariant
                    g.wf(),
                    adj == g.adjacency(),
                    n == g.nodes@.len(),
                    u < n,
                    seen@[u as int],
                    deps@ == adj[u as int],
                    seen@.len() == n,
                    next@.len() == n,
                    j <= deps@.len(),
                    forall|w: int|
                        0 <= w < n ==> (next@[w] <==> (seen@[w] || (exists|x: int, e: int|
                            0 <= x < u && 0 <= e < adj[x].len() && seen@[x] && #[trigger] adj[x][e]
                                == w) || exists|e: int| 0 <= e < j && adj[u as int][e] == w)),
                decreases deps@.len() - j,
            {
                let t = deps[j];
                proof {
                    assert(adj[u as int][j as int] == t);
                }
                next.set(t, true);
                j = j + 1;
            }
        }
        proof {
            assert forall|w: int| 0 <= w < n implies (next@[w] <==> (seen@[w] || exists|
                x: int,
                e: int,
            | 0 <= x < u + 1 && 0 <= e < adj[x].len() && seen@[x] && #[trigger] adj[x][e] == w)) by {
                if next@[w] && !seen@[w] {
                    if seen@[u as int] && exists|e: int|
                        0 <= e < adj[u as int].len() && adj[u as int][e] == w {
                        let e = choose|e: int| 0 <= e < adj[u as int].len() && adj[u as int][e] == w;
                        assert(adj[u as int][e] == w);
                    }
                }
            }
        }
        u = u + 1;
    }
    assert(next@ =~= step(adj, seen@));
    next
}

/// Count transitive dependencies of the package at index `package`, itself excluded.
pub fn count_transitive_deps(package: usize, graph: &PackageGraph) -> (r: u32)
    requires
        graph.wf(),
    ensures
        r == if transitive_count(*graph, package as int) > u32::MAX {
            u32::MAX as int
        } else {
            transitive_count(*graph, package as int) as int
        },
{
    let n = graph.nodes.len();
    if !graph.resolved || package >= n {
        return 0;
    }
    let ghost adj = graph.adjacency();
    let mut seen: Vec<bool> = Vec::new();
    let mut v: usize = 0;
    while v < n
        invariant
            v <= n,
            seen@.len() == v,
            forall|w: int| 0 <= w < v ==> seen@[w] == (w == package),
        decreases n - v,
    {
        seen.push(v == package);
        v = v + 1;
    }
    assert(seen@ =~= reach_within(adj, package as int, 0));
    let mut k: usize = 0;
    loop
        invariant
            graph.wf(),
            adj == graph.adjacency(),
            n == graph.nodes@.len(),
            k <= n,
            seen@ == reach_within(adj, package as int, k as nat),
        ensures
            seen@ == reach_within(adj, package as int, n as nat),
        decreases n - k,
    {
        if k == n {
            break;
        }
        let next = step_once(graph, &seen);
        assert(next@ == reach_within(adj, package as int, (k + 1) as nat));
        if vec_eq(&next, &seen) {
            proof {
                lemma_reach_fixpoint(adj, package as int, k as nat, n as nat);
            }
            break;
        }
        seen = next;
        k = k + 1;
    }
    proof {
        assert(adj.len() == n);
        lemma_start_reached(adj, package as int, n as nat);
        lemma_reach_len(adj, package as int, n as nat);
        lemma_count_true_pos(seen@, package as int);
        lemma_count_true_bound(seen@);
    }
    let mut count: usize = 0;
    let mut i: usize = 0;
    while i < n
        invariant
            seen@.len() == n,
            i <= n,
            count == count_true(seen@.take(i as int)),
            count <= i,
        decreases n - i,
    {
        proof {
            assert(seen@.take(i as int + 1).drop_last() =~= seen@.take(i as int));
        }
        if seen[i] {
            count = count + 1;
        }
        i = i + 1;
    }
    assert(seen@.take(n as int) =~= seen@);
    let t = count - 1;
    if t > u32::MAX as usize {
        u32::MAX
    } else {
        t as u32
    }
}

fn vec_eq(a: &Vec<bool>, b: &Vec<bool>) -> (r: bool)
    ensures
        r == (a@ == b@),
{
    if a.len() != b.len() {
        return false;
    }
    let mut i: usize = 0;
    while i < a.len()
        invariant
            a@.len() == b@.len(),
            i <= a@.len(),
            forall|j: int| 0 <= j < i ==> a@[j] == b@[j],
        decreases a@.len() - i,
    {
        if a[i] != b[i] {
            return false;
        }
        i = i + 1;
    }
    assert(a@ =~= b@);
    true
}

/// Bucket of the transitive dependency count, in tenths.
pub open spec fn dep_count_points(count: int) -> int {
    if count <= 5 {
        1
    } else if count <= 10 {
        2
    } else if count <= 20 {
        4
    } else if count <= 50 {
        6
    } else if count <= 100 {
        8
    } else {
        10
    }
}

/// Bucket of the declared feature count, in tenths.
pub open spec fn feature_points(count: int) -> int {
    if count <= 3 {
        1
    } else if count <= 8 {
        3
    } else if count <= 15 {
        5
    } else if count <= 30 {
        7
    } else {
        10
    }
}

/// Bucket of the build-time dependency count, in tenths.
pub open spec fn build_dep_points(count: int) -> int {
    if count == 0 {
        0
    } else if count <= 2 {
        3
    } else if count <= 5 {
        6
    } else {
        10
    }
}

/// Footprint score in hundredths: 0.4 of the transitive bucket, plus 0.3 of the
/// feature bucket and 0.3 of the build-dependency bucket when package details are known.
pub open spec fn footprint_score(transitive: int, detail: Option<(int, int)>) -> int {
    4 * dep_count_points(transitive) + match detail {
        Some((features, build_deps)) => 3 * feature_points(features) + 3 * build_dep_points(
            build_deps,
        ),
        None => 0,
    }
}

/// Calculate the bucket of a transitive dependency count, in tenths.
pub fn calculate_dep_count_score(count: u32) -> (r: u32)
    ensures
        r == dep_count_points(count as int),
{
    if count <= 5 {
        1
    } else if count <= 10 {
        2
    } else if count <= 20 {
        4
    } else if count <= 50 {
        6
    } else if count <= 100 {
        8
    } else {
        10
    }
}

/// Calculate the bucket of a declared feature count, in tenths.
pub fn calculate_feature_score(feature_count: usize) -> (r: u32)
    ensures
        r == feature_points(feature_count as int),
{
    if feature_count <= 3 {
        1
    } else if feature_count <= 8 {
        3
    } else if feature_count <= 15 {
        5
    } else if feature_count <= 30 {
        7
    } else {
        10
    }
}

/// Calculate the bucket of a build-time dependency count, in tenths.
pub fn calculate_build_dep_score(build_dep_count: usize) -> (r: u32)
    ensures
        r == build_dep_points(build_dep_count as int),
{
    if build_dep_count == 0 {
        0
    } else if build_dep_count <= 2 {
        3
    } else if build_dep_count <= 5 {
        6
    } else {
        10
    }
}

/// The feature and build-dependency counts of a package, when the graph has them.
pub open spec fn detail_of(g: PackageGraph, package: int) -> Option<(int, int)> {
    if 0 <= package < g.nodes@.len() {
        match g.nodes@[package].detail {
            Some(d) => Some((d.feature_count as int, d.build_dep_count as int)),
            None => None,
        }
    } else {
        None
    }
}

/// The transitive count as reported: capped at `u32::MAX`.
pub open spec fn reported_count(g: PackageGraph, package: int) -> int {
    if transitive_count(g, package) > u32::MAX {
        u32::MAX as int
    } else {
        transitive_count(g, package) as int
    }
}

pub open spec fn transitive_warning(count: int, max: int) -> Seq<char> {
    "High number of transitive dependencies: "@ + decimal_text(count as nat) + " (threshold: "@
        + decimal_text(max as nat) + ")"@
}

pub open spec fn footprint_warning(score: int, max: int) -> Seq<char> {
    "High footprint risk: "@ + hundredths_text(score as nat) + " (threshold: "@ + hundredths_text(
        max as nat,
    ) + ")"@
}

/// The warnings that the thresholds raise, in order.
pub open spec fn footprint_warnings(count: int, score: int, th: FootprintThresholds) -> Seq<
    Seq<char>,
> {
    let a = match th.max_transitive_deps {
        Some(m) => if count > m {
            seq![transitive_warning(count, m as int)]
        } else {
            seq![]
        },
        None => seq![],
    };
    let b = match th.max_footprint_risk {
        Some(m) => if score > m {
            seq![footprint_warning(score, m as int)]
        } else {
            seq![]
        },
        None => seq![],
    };
    a + b
}

/// Estimate the footprint risk of the package at index `package`, in hundredths,
/// with the warnings that the thresholds raise.
pub fn estimate_footprint(package: usize, graph: &PackageGraph, thresholds: &FootprintThresholds) -> (r: (
    u32,
    Vec<String>,
))
    requires
        graph.wf(),
    ensures
        r.0 == footprint_score(reported_count(*graph, package as int), detail_of(*graph, package as int)),
        r.0 <= 100,
        crate::license::texts(r.1@) == footprint_warnings(
            reported_count(*graph, package as int),
            r.0 as int,
            *thresholds,
        ),
{
    let mut warnings: Vec<String> = Vec::new();
    let transitive_count = count_transitive_deps(package, graph);
    let mut score: u32 = 4 * calculate_dep_count_score(transitive_count);
    if package < graph.nodes.len() {
        if let Some(d) = &graph.nodes[package].detail {
            score = score + 3 * calculate_feature_score(d.feature_count) + 3
                * calculate_build_dep_score(d.build_dep_count);
        }
    }
    if let Some(max) = thresholds.max_transitive_deps {
        if transitive_count > max {
            let mut msg = "High number of transitive dependencies: ".to_owned();
            msg.append(decimal(transitive_count as u64).as_str());
            msg.append(" (threshold: ");
            msg.append(decimal(max as u64).as_str());
            msg.append(")");
            warnings.push(msg);
        }
    }
    let ghost first = crate::license::texts(warnings@);
    if let Some(max) = thresholds.max_footprint_risk {
        if score > max {
            let mut msg = "High footprint risk: ".to_owned();
            msg.append(hundredths(score as u64).as_str());
            msg.append(" (threshold: ");
            msg.append(hundredths(max as u64).as_str());
            msg.append(")");
            warnings.push(msg);
        }
    }
    assert(crate::license::texts(warnings@) =~= footprint_warnings(
        transitive_count as int,
        score as int,
        *thresholds,
    ));
    (score, warnings)
}

/// The footprint score never decreases as the transitive dependency count
/// grows, for fixed feature and build-dependency counts; with no transitive
/// dependencies and no details it is at its least, 4 hundredths.
pub proof fn lemma_footprint_monotone(a: int, b: int, detail: Option<(int, int)>)
    requires
        0 <= a <= b,
    ensures
        footprint_score(a, detail) <= footprint_score(b, detail),
        footprint_score(0, None) == 4,
        footprint_score(0, Some((0, 0))) == 7,
        footprint_score(0, None) <= footprint_score(b, detail),
{
}

} // verus!
