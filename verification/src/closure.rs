//! Transitive call closure: a breadth-first walk over the external packages
//! that each repository calls, up to a bounded depth.
//!
//! The walk is a state machine. [`ClosureWalk::next_job`] hands out the next
//! repository whose call edges are to be fetched, together with the query
//! that fetches them; whoever runs the query hands the result rows back to
//! [`ClosureWalk::absorb`], which records the edges and queues the packages
//! that resolve to known repositories.
use vstd::prelude::*;
use std::collections::VecDeque;
use crate::numbers;
use crate::registry;
use crate::registry::{CacheRepoDir, RepoRef};
use crate::text;

verus! {

broadcast use vstd::seq_lib::group_seq_properties;

/// Options of a closure request.
pub struct ClosureOptions {
    pub from: String,
    pub to: Option<String>,
    pub max_depth: usize,
    pub format: String,
    pub endpoint: Option<String>,
}

/// One cross-repository call edge found by the walk.
#[derive(Debug)]
pub struct ClosureEdgeJson {
    pub hop: usize,
    pub caller: String,
    pub target: String,
    pub call_count: usize,
    pub sample_source_file: String,
}

/// View of an edge: hop, caller, target, call count, sample source file.
pub type EdgeView = (nat, Seq<char>, Seq<char>, nat, Seq<char>);

/// View of an edge.
pub open spec fn edge_view(e: ClosureEdgeJson) -> EdgeView {
    (e.hop as nat, e.caller@, e.target@, e.call_count as nat, e.sample_source_file@)
}

/// View of a list of edges.
pub open spec fn edges_view(es: Seq<ClosureEdgeJson>) -> Seq<EdgeView> {
    es.map_values(|e: ClosureEdgeJson| edge_view(e))
}

/// View of a repository reference.
pub type RefView = (Seq<char>, Seq<char>, Seq<char>);

/// View of a queued repository with its depth.
pub type QueuedView = (RefView, nat);

/// The state of a walk: edges found, names visited, repositories queued.
pub struct ClosureWalk {
    pub max_depth: usize,
    pub edges: Vec<ClosureEdgeJson>,
    pub visited: Vec<String>,
    pub queue: VecDeque<(RepoRef, usize)>,
}

/// View of the state: depth bound, edges, visited names, queue.
pub type WalkView = (nat, Seq<EdgeView>, Set<Seq<char>>, Seq<QueuedView>);

/// View of a list of queued repositories.
pub open spec fn queue_view(q: Seq<(RepoRef, usize)>) -> Seq<QueuedView> {
    q.map_values(|e: (RepoRef, usize)| (e.0@, e.1 as nat))
}

/// View of a list of names as a set.
pub open spec fn names_view(v: Seq<String>) -> Set<Seq<char>> {
    v.map_values(|s: String| s@).to_set()
}

impl View for ClosureWalk {
    type V = WalkView;

    open spec fn view(&self) -> WalkView {
        (self.max_depth as nat, edges_view(self.edges@), names_view(self.visited@), queue_view(self.queue@))
    }
}

/// The depth bound lies in `1..=6`, every edge lies within it, and nothing
/// deeper than it is queued.
pub open spec fn walk_wf(w: WalkView) -> bool {
    &&& 1 <= w.0 <= 6
    &&& forall|i: int| 0 <= i < w.1.len() ==> 1 <= (#[trigger] w.1[i]).0 <= w.0
    &&& forall|i: int| 0 <= i < w.3.len() ==> (#[trigger] w.3[i]).1 <= w.0
}

impl ClosureWalk {
    /// Well-formedness of the state.
    pub open spec fn wf(&self) -> bool {
        walk_wf(self@)
    }
}

/// A requested depth clamped into `1..=6`.
pub open spec fn clamp_depth_spec(d: nat) -> nat {
    if d < 1 {
        1
    } else if d > 6 {
        6
    } else {
        d
    }
}

/// Clamps a requested depth into `1..=6`.
pub fn clamp_depth(d: usize) -> (r: usize)
    ensures
        r == clamp_depth_spec(d as nat),
{
    if d < 1 {
        1
    } else if d > 6 {
        6
    } else {
        d
    }
}

/// The state in which a walk from `root` begins.
pub open spec fn start_view(root: RefView, max_depth: nat) -> WalkView {
    (
        clamp_depth_spec(max_depth),
        Seq::empty(),
        set![registry::slash_join(root.0, root.1), text::lower(root.1)],
        seq![(root, 0nat)],
    )
}

/// Text of the query that fetches the call edges out of `lsp_iri`, grouped
/// by target package, most calls first.
pub open spec fn closure_query(lsp_iri: Seq<char>) -> Seq<char> {
    CLOSURE_QUERY_HEAD@ + lsp_iri + CLOSURE_QUERY_TAIL@
}

/// Head of the closure query, up to the graph IRI.
pub const CLOSURE_QUERY_HEAD: &'static str = "\nPREFIX lx: <https://repolex.ai/ontology/repolex/lsp-extension/>\nSELECT ?targetPkg (COUNT(?e) as ?callCount) (SAMPLE(?srcFile) as ?sampleFile)\nWHERE {\n  GRAPH <";

/// Tail of the closure query, after the graph IRI.
pub const CLOSURE_QUERY_TAIL: &'static str = "> {\n    ?e lx:externalPackage ?targetPkg .\n    OPTIONAL { ?e lx:resolutionSourceFile ?srcFile . }\n  }\n}\nGROUP BY ?targetPkg\nORDER BY DESC(?callCount)\nLIMIT 50\n";

/// Builds the closure query for one LSP graph.
pub fn build_closure_query(lsp_iri: &str) -> (s: String)
    ensures
        s@ == closure_query(lsp_iri@),
{
    let mut v = text::chars_of(CLOSURE_QUERY_HEAD);
    text::push_str(&mut v, lsp_iri);
    text::push_str(&mut v, CLOSURE_QUERY_TAIL);
    text::string_from_chars(&v)
}

/// A repository whose call edges the walk needs next.
pub struct ClosureJob {
    pub repo: RepoRef,
    pub depth: usize,
    pub sparql: String,
}

/// A queued entry shallow enough to be expanded.
pub open spec fn shallow(max_depth: nat) -> spec_fn(QueuedView) -> bool {
    |e: QueuedView| e.1 < max_depth
}

/// The edge that a result row gives, if any: rows that are empty or whose
/// first cell is empty give none; the call count is the second cell parsed
/// as a number (0 when absent or not a number) and the sample file the third
/// cell (`unknown` when absent).
pub open spec fn row_edge(caller: Seq<char>, depth: nat, row: Seq<String>) -> Option<EdgeView> {
    if row.len() == 0 || row[0]@.len() == 0 {
        None
    } else {
        let count = if row.len() > 1 {
            match numbers::parse_decimal(row[1]@, usize::MAX as nat) {
                Some(n) => n,
                None => 0,
            }
        } else {
            0
        };
        let sample = if row.len() > 2 {
            row[2]@
        } else {
            "unknown"@
        };
        Some((depth + 1, caller, row[0]@, count, sample))
    }
}

/// The state after one result row of the job at `depth` from `caller`.
pub open spec fn absorb_row_spec(
    w: WalkView,
    caller: Seq<char>,
    depth: nat,
    row: Seq<String>,
    cache: Option<Seq<CacheRepoDir>>,
) -> WalkView {
    match row_edge(caller, depth, row) {
        None => w,
        Some(e) => {
            let norm = text::lower(e.2);
            if w.2.contains(norm) {
                (w.0, w.1.push(e), w.2, w.3)
            } else {
                let q = match registry::resolve_spec(e.2, cache) {
                    Some(r) => w.3.push((r, depth + 1)),
                    None => w.3,
                };
                (w.0, w.1.push(e), w.2.insert(norm), q)
            }
        },
    }
}

/// The state after all result rows of a job, in order.
pub open spec fn absorb_rows_spec(
    w: WalkView,
    caller: Seq<char>,
    depth: nat,
    rows: Seq<Vec<String>>,
    cache: Option<Seq<CacheRepoDir>>,
) -> WalkView
    decreases rows.len(),
{
    if rows.len() == 0 {
        w
    } else {
        absorb_row_spec(
            absorb_rows_spec(w, caller, depth, rows.drop_last(), cache),
            caller,
            depth,
            rows.last()@,
            cache,
        )
    }
}

fn edge_from_row(caller: &str, depth: usize, row: &Vec<String>) -> (r: Option<ClosureEdgeJson>)
    requires
        depth < usize::MAX,
    ensures
        match r {
            Some(e) => row_edge(caller@, depth as nat, row@) == Some(edge_view(e)),
            None => row_edge(caller@, depth as nat, row@) is None,
        },
{
    if row.len() == 0 || row[0].as_str().is_empty() {
        return None;
    }
    let count: usize = if row.len() > 1 {
        match numbers::parse_usize(row[1].as_str()) {
            Some(n) => n,
            None => 0,
        }
    } else {
        0
    };
    let sample = if row.len() > 2 {
        row[2].clone()
    } else {
        proof {
            reveal_strlit("unknown");
        }
        "unknown".to_owned()
    };
    Some(
        ClosureEdgeJson {
            hop: depth + 1,
            caller: caller.to_owned(),
            target: row[0].clone(),
            call_count: count,
            sample_source_file: sample,
        },
    )
}

fn names_contain(v: &Vec<String>, x: &Vec<char>) -> (r: bool)
    ensures
        r == names_view(v@).contains(x@),
{
    let mut i: usize = 0;
    while i < v.len()
        invariant
            i <= v@.len(),
            forall|j: int| 0 <= j < i ==> v@[j]@ != x@,
        decreases v.len() - i,
    {
        let c = text::chars_of(v[i].as_str());
        if text::chars_eq(&c, x) {
            assert(v@.map_values(|s: String| s@)[i as int] == x@);
            return true;
        }
        i = i + 1;
    }
    proof {
        let m = v@.map_values(|s: String| s@);
        if m.to_set().contains(x@) {
            let k = choose|k: int| 0 <= k < m.len() && #[trigger] m[k] == x@;
            assert(v@[k]@ == x@);
        }
    }
    false
}

proof fn lemma_names_push(v: Seq<String>, s: String)
    ensures
        names_view(v.push(s)) == names_view(v).insert(s@),
{
    assert(v.push(s).map_values(|t: String| t@) =~= v.map_values(|t: String| t@).push(s@));
}

impl ClosureWalk {
    /// The walk from `root` with the requested depth clamped into `1..=6`:
    /// no edges yet, the root visited both as `org/repo` and as its
    /// lower-cased repository name, and the root queued at depth 0.
    pub fn start(root: RepoRef, max_depth: usize) -> (w: ClosureWalk)
        ensures
            w.wf(),
            w@ == start_view(root@, max_depth as nat),
    {
        let mut name = text::chars_of(root.org.as_str());
        text::push_str(&mut name, "/");
        text::push_str(&mut name, root.repo.as_str());
        let lower_repo = text::to_lower(root.repo.as_str());
        let mut visited: Vec<String> = Vec::new();
        visited.push(text::string_from_chars(&name));
        visited.push(lower_repo);
        let mut queue: VecDeque<(RepoRef, usize)> = VecDeque::new();
        let ghost rv = root@;
        queue.push_back((root, 0));
        let w = ClosureWalk { max_depth: clamp_depth(max_depth), edges: Vec::new(), visited, queue };
        proof {
            lemma_names_push(Seq::empty(), w.visited@[0]);
            lemma_names_push(seq![w.visited@[0]], w.visited@[1]);
            assert(seq![w.visited@[0]].push(w.visited@[1]) =~= w.visited@);
            assert(Seq::<String>::empty().push(w.visited@[0]) =~= seq![w.visited@[0]]);
            assert(names_view(Seq::empty()) =~= Set::<Seq<char>>::empty());
            assert(w@.1 =~= Seq::<EdgeView>::empty());
            assert(w@.2 =~= set![registry::slash_join(rv.0, rv.1), text::lower(rv.1)]);
            assert(w@.3 =~= seq![(rv, 0nat)]);
        }
        w
    }

    /// Takes the next queued repository that is shallower than the depth
    /// bound, dropping the deeper ones before it, and returns it with the
    /// query for its call edges; `None` once no such repository is left, the
    /// queue then being empty. Edges and visited names do not change.
    pub fn next_job(&mut self) -> (r: Option<ClosureJob>)
        requires
            old(self).wf(),
        ensures
            final(self).wf(),
            final(self)@.0 == old(self)@.0,
            final(self)@.1 == old(self)@.1,
            final(self)@.2 == old(self)@.2,
            match r {
                Some(job) => {
                    &&& text::any_where(old(self)@.3, shallow(old(self)@.0))
                    &&& (job.repo@, job.depth as nat) == old(self)@.3[text::first_where(
                        old(self)@.3,
                        shallow(old(self)@.0),
                    )]
                    &&& final(self)@.3 == old(self)@.3.skip(
                        text::first_where(old(self)@.3, shallow(old(self)@.0)) + 1,
                    )
                    &&& job.sparql@ == closure_query(
                        registry::graph_iri(job.repo@.0, job.repo@.1, "lsp"@, job.repo@.2),
                    )
                    &&& job.depth < old(self)@.0
                },
                None => {
                    &&& !text::any_where(old(self)@.3, shallow(old(self)@.0))
                    &&& final(self)@.3 == Seq::<QueuedView>::empty()
                },
            },
    {
        let ghost q0 = self@.3;
        let ghost p = shallow(self@.0);
        let ghost mut k: int = 0;
        loop
            invariant
                self.wf(),
                self@.0 == old(self)@.0,
                self@.1 == old(self)@.1,
                self@.2 == old(self)@.2,
                q0 == old(self)@.3,
                p == shallow(old(self)@.0),
                0 <= k <= q0.len(),
                self@.3 == q0.skip(k),
                forall|j: int| 0 <= j < k ==> !p(#[trigger] q0[j]),
            decreases self@.3.len(),
        {
            let ghost before = self.queue@;
            match self.queue.pop_front() {
                None => {
                    assert(k == q0.len());
                    return None;
                },
                Some((repo, depth)) => {
                    proof {
                        assert(queue_view(before)[0] == q0[k]);
                        assert(queue_view(self.queue@) =~= q0.skip(k + 1));
                    }
                    if depth < self.max_depth {
                        proof {
                            assert(p(q0[k]));
                            assert(text::is_first_where(q0, p, k));
                            text::lemma_first_where(q0, p, k);
                        }
                        let iri = repo.lsp_graph();
                        let sparql = build_closure_query(iri.as_str());
                        return Some(ClosureJob { repo, depth, sparql });
                    }
                    proof {
                        k = k + 1;
                    }
                },
            }
        }
    }

    fn absorb_row(
        &mut self,
        caller: &str,
        depth: usize,
        row: &Vec<String>,
        cache: Option<&Vec<CacheRepoDir>>,
    )
        requires
            old(self).wf(),
            depth < old(self).max_depth,
        ensures
            final(self).wf(),
            final(self)@ == absorb_row_spec(
                old(self)@,
                caller@,
                depth as nat,
                row@,
                registry::opt_cache_view(cache),
            ),
    {
        match edge_from_row(caller, depth, row) {
            None => {},
            Some(e) => {
                let target = e.target.clone();
                let norm = text::to_lower(target.as_str());
                let normv = text::chars_of(norm.as_str());
                let ghost ev = edge_view(e);
                let ghost w0 = self@;
                let seen = names_contain(&self.visited, &normv);
                self.edges.push(e);
                assert(edges_view(self.edges@) =~= w0.1.push(ev));
                assert(forall|i: int| 0 <= i < self@.1.len() ==> 1 <= (#[trigger] self@.1[i]).0 <= self@.0);
                if !seen {
                    let ghost v0 = self.visited@;
                    self.visited.push(norm);
                    proof {
                        lemma_names_push(v0, self.visited@[v0.len() as int]);
                        assert(self.visited@ =~= v0.push(self.visited@[v0.len() as int]));
                    }
                    match registry::resolve_repo(target.as_str(), cache) {
                        Some(next) => {
                            let ghost q0 = self.queue@;
                            self.queue.push_back((next, depth + 1));
                            assert(queue_view(self.queue@) =~= queue_view(q0).push(
                                (next@, (depth + 1) as nat),
                            ));
                            assert(queue_view(q0) == w0.3);
                            assert forall|i: int|
                                0 <= i < self@.3.len() implies (#[trigger] self@.3[i]).1
                                <= self@.0 by {
                                if i < q0.len() {
                                    assert(self@.3[i] == w0.3[i]);
                                }
                            }
                        },
                        None => {
                            assert(self@.3 == w0.3);
                        },
                    }
                } else {
                    assert(self@.3 == w0.3);
                }
            },
        }
    }

    /// Records the result rows of `job`, in order. A row gives an edge from
    /// the job's repository at the next hop (see [`row_edge`]); the edge's
    /// target, lower-cased, is marked visited the first time it is seen, and
    /// then, when it resolves to a known repository, that repository is
    /// queued one level deeper.
    pub fn absorb(&mut self, job: &ClosureJob, rows: &Vec<Vec<String>>, cache: Option<&Vec<CacheRepoDir>>)
        requires
            old(self).wf(),
            job.depth < old(self).max_depth,
        ensures
            final(self).wf(),
            final(self)@ == absorb_rows_spec(
                old(self)@,
                job.repo.repo@,
                job.depth as nat,
                rows@,
                registry::opt_cache_view(cache),
            ),
    {
        let mut i: usize = 0;
        while i < rows.len()
            invariant
                i <= rows@.len(),
                self.wf(),
                self.max_depth == old(self).max_depth,
                job.depth < self.max_depth,
                self@ == absorb_rows_spec(
                    old(self)@,
                    job.repo.repo@,
                    job.depth as nat,
                    rows@.take(i as int),
                    registry::opt_cache_view(cache),
                ),
            decreases rows.len() - i,
        {
            proof {
                assert(rows@.take(i + 1).drop_last() =~= rows@.take(i as int));
                assert(rows@.take(i + 1).last() == rows@[i as int]);
            }
            self.absorb_row(job.repo.repo.as_str(), job.depth, &rows[i], cache);
            i = i + 1;
        }
        assert(rows@.take(rows@.len() as int) =~= rows@);
    }
}


/// The walk, absorbing the rows of a job at `depth`, keeps every edge it had
/// and every name it had visited; each edge it adds starts at the job's
/// repository and lies one hop deeper than the job.
pub proof fn law_absorb_extends(
    w: WalkView,
    caller: Seq<char>,
    depth: nat,
    rows: Seq<Vec<String>>,
    cache: Option<Seq<CacheRepoDir>>,
)
    ensures
        ({
            let r = absorb_rows_spec(w, caller, depth, rows, cache);
            &&& r.0 == w.0
            &&& r.1.len() >= w.1.len()
            &&& r.1.take(w.1.len() as int) == w.1
            &&& w.2.subset_of(r.2)
            &&& forall|i: int|
                w.1.len() <= i < r.1.len() ==> (#[trigger] r.1[i]).0 == depth + 1 && r.1[i].1
                    == caller
        }),
    decreases rows.len(),
{
    if rows.len() > 0 {
        law_absorb_extends(w, caller, depth, rows.drop_last(), cache);
        let p = absorb_rows_spec(w, caller, depth, rows.drop_last(), cache);
        let r = absorb_rows_spec(w, caller, depth, rows, cache);
        assert(r == absorb_row_spec(p, caller, depth, rows.last()@, cache));
        match row_edge(caller, depth, rows.last()@) {
            None => {},
            Some(e) => {
                assert(r.1 == p.1.push(e));
                assert(r.1.take(w.1.len() as int) =~= p.1.take(w.1.len() as int));
                assert forall|i: int| w.1.len() <= i < r.1.len() implies (#[trigger] r.1[i]).0
                    == depth + 1 && r.1[i].1 == caller by {
                    if i < p.1.len() {
                        assert(r.1[i] == p.1[i]);
                    }
                }
            },
        }
    } else {
        assert(w.1.take(w.1.len() as int) =~= w.1);
    }
}

/// An edge that the target filter keeps: its target or its caller,
/// lower-cased, contains the lower-cased filter.
pub open spec fn edge_matches(e: EdgeView, filter_lower: Seq<char>) -> bool {
    text::contains_seq(text::lower(e.2), filter_lower) || text::contains_seq(
        text::lower(e.1),
        filter_lower,
    )
}

/// The edges kept by an optional target filter.
pub open spec fn filtered_edges_spec(es: Seq<EdgeView>, to: Option<Seq<char>>) -> Seq<EdgeView> {
    match to {
        None => es,
        Some(t) => es.filter(|e: EdgeView| edge_matches(e, text::lower(t))),
    }
}

fn copy_edge(e: &ClosureEdgeJson) -> (r: ClosureEdgeJson)
    ensures
        edge_view(r) == edge_view(*e),
{
    ClosureEdgeJson {
        hop: e.hop,
        caller: e.caller.clone(),
        target: e.target.clone(),
        call_count: e.call_count,
        sample_source_file: e.sample_source_file.clone(),
    }
}

/// The edges whose target or caller contains the filter (both sides
/// lower-cased), in order; all of them when there is no filter.
pub fn filter_edges(edges: &Vec<ClosureEdgeJson>, to: Option<&str>) -> (r: Vec<ClosureEdgeJson>)
    ensures
        edges_view(r@) == filtered_edges_spec(
            edges_view(edges@),
            match to {
                Some(t) => Some(t@),
                None => None,
            },
        ),
{
    let ghost all = edges_view(edges@);
    let tf: Option<Vec<char>> = match to {
        Some(t) => {
            let l = text::to_lower(t);
            Some(text::chars_of(l.as_str()))
        },
        None => None,
    };
    let ghost pred = |e: EdgeView|
        match to {
            Some(t) => edge_matches(e, text::lower(t@)),
            None => true,
        };
    let mut out: Vec<ClosureEdgeJson> = Vec::new();
    let mut i: usize = 0;
    assert(all.take(0).filter(pred) =~= Seq::<EdgeView>::empty()) by {
        reveal_with_fuel(Seq::filter, 1);
    }
    while i < edges.len()
        invariant
            i <= edges@.len(),
            all == edges_view(edges@),
            match to {
                Some(t) => tf is Some && tf->0@ == text::lower(t@),
                None => tf is None,
            },
            pred == (|e: EdgeView|
                match to {
                    Some(t) => edge_matches(e, text::lower(t@)),
                    None => true,
                }),
            edges_view(out@) == all.take(i as int).filter(pred),
        decreases edges.len() - i,
    {
        let e = &edges[i];
        proof {
            reveal_with_fuel(Seq::filter, 1);
            assert(all.take(i + 1).drop_last() =~= all.take(i as int));
            assert(all.take(i + 1).last() == edge_view(*e));
        }
        let keep = match &tf {
            None => true,
            Some(f) => {
                let tl = text::to_lower(e.target.as_str());
                let cl = text::to_lower(e.caller.as_str());
                let tlv = text::chars_of(tl.as_str());
                let clv = text::chars_of(cl.as_str());
                text::contains_chars(&tlv, f) || text::contains_chars(&clv, f)
            },
        };
        assert(keep == pred(edge_view(*e)));
        if keep {
            let ghost o = out@;
            out.push(copy_edge(e));
            assert(edges_view(out@) =~= edges_view(o).push(edge_view(*e)));
        }
        i = i + 1;
    }
    proof {
        assert(all.take(edges@.len() as int) =~= all);
        if let Some(t) = to {
            assert(pred =~= (|e: EdgeView| edge_matches(e, text::lower(t@))));
        }
        if to is None {
            assert(all.filter(pred) =~= all) by {
                all.filter_lemma(pred);
                lemma_filter_true(all, pred);
            }
        }
    }
    out
}

proof fn lemma_filter_true(s: Seq<EdgeView>, p: spec_fn(EdgeView) -> bool)
    requires
        forall|e: EdgeView| #[trigger] p(e),
    ensures
        s.filter(p) == s,
    decreases s.len(),
{
    reveal_with_fuel(Seq::filter, 1);
    if s.len() > 0 {
        lemma_filter_true(s.drop_last(), p);
        assert(s.drop_last().push(s.last()) =~= s);
    } else {
        assert(s.filter(p) =~= s);
    }
}

/// The names the edges touch, with the root's `org/repo` name.
pub open spec fn node_set(root_name: Seq<char>, es: Seq<EdgeView>) -> Set<Seq<char>>
    decreases es.len(),
{
    if es.len() == 0 {
        set![root_name]
    } else {
        node_set(root_name, es.drop_last()).insert(es.last().1).insert(es.last().2)
    }
}

fn names_vec_contain(v: &Vec<Vec<char>>, x: &Vec<char>) -> (r: bool)
    ensures
        r == v@.map_values(|s: Vec<char>| s@).contains(x@),
{
    let ghost m = v@.map_values(|s: Vec<char>| s@);
    let mut i: usize = 0;
    while i < v.len()
        invariant
            i <= v@.len(),
            m == v@.map_values(|s: Vec<char>| s@),
            forall|j: int| 0 <= j < i ==> m[j] != x@,
        decreases v.len() - i,
    {
        if text::chars_eq(&v[i], x) {
            assert(m[i as int] == x@);
            return true;
        }
        i = i + 1;
    }
    false
}

fn add_name(v: &mut Vec<Vec<char>>, x: Vec<char>)
    requires
        old(v)@.map_values(|s: Vec<char>| s@).no_duplicates(),
    ensures
        final(v)@.map_values(|s: Vec<char>| s@).no_duplicates(),
        final(v)@.map_values(|s: Vec<char>| s@).to_set() == old(v)@.map_values(
            |s: Vec<char>| s@,
        ).to_set().insert(x@),
{
    let ghost m0 = v@.map_values(|s: Vec<char>| s@);
    if !names_vec_contain(v, &x) {
        let ghost xv = x@;
        v.push(x);
        proof {
            assert(v@.map_values(|s: Vec<char>| s@) =~= m0.push(xv));
            assert forall|i: int, j: int|
                0 <= i < m0.push(xv).len() && 0 <= j < m0.push(xv).len() && i != j implies m0.push(
                xv,
            )[i] != m0.push(xv)[j] by {
                if i < m0.len() && j < m0.len() {
                    assert(m0[i] != m0[j]);
                } else if i < m0.len() {
                    assert(m0.contains(m0[i]));
                } else if j < m0.len() {
                    assert(m0.contains(m0[j]));
                }
            }
            m0.lemma_push_to_set_commute(xv);
        }
    } else {
        assert(m0.to_set().insert(x@) =~= m0.to_set());
    }
}

/// Number of distinct names among the root's `org/repo` name and the
/// callers and targets of the edges.
pub fn count_nodes(root_name: &str, edges: &Vec<ClosureEdgeJson>) -> (n: usize)
    ensures
        n == node_set(root_name@, edges_view(edges@)).len(),
{
    let ghost all = edges_view(edges@);
    let mut names: Vec<Vec<char>> = Vec::new();
    add_name(&mut names, text::chars_of(root_name));
    assert(Seq::<Seq<char>>::empty().to_set().insert(root_name@) =~= set![root_name@]);
    assert(Seq::<Vec<char>>::empty().map_values(|s: Vec<char>| s@) =~= Seq::<Seq<char>>::empty());
    let mut i: usize = 0;
    while i < edges.len()
        invariant
            i <= edges@.len(),
            all == edges_view(edges@),
            names@.map_values(|s: Vec<char>| s@).no_duplicates(),
            names@.map_values(|s: Vec<char>| s@).to_set() == node_set(
                root_name@,
                all.take(i as int),
            ),
        decreases edges.len() - i,
    {
        let e = &edges[i];
        proof {
            assert(all.take(i + 1).drop_last() =~= all.take(i as int));
            assert(all.take(i + 1).last() == edge_view(*e));
        }
        add_name(&mut names, text::chars_of(e.caller.as_str()));
        add_name(&mut names, text::chars_of(e.target.as_str()));
        i = i + 1;
    }
    proof {
        assert(all.take(edges@.len() as int) =~= all);
        names@.map_values(|s: Vec<char>| s@).unique_seq_to_set();
    }
    names.len()
}

/// The node count is at least one (the root) and at most one more than
/// twice the number of edges.
pub proof fn law_node_count_bounds(root_name: Seq<char>, es: Seq<EdgeView>)
    ensures
        node_set(root_name, es).finite(),
        1 <= node_set(root_name, es).len() <= 2 * es.len() + 1,
        node_set(root_name, es).contains(root_name),
    decreases es.len(),
{
    if es.len() > 0 {
        law_node_count_bounds(root_name, es.drop_last());
        let p = node_set(root_name, es.drop_last());
        assert(p.insert(es.last().1).len() <= p.len() + 1);
        assert(p.insert(es.last().1).insert(es.last().2).len() <= p.insert(es.last().1).len() + 1);
        assert(p.insert(es.last().1).contains(root_name));
        assert(p.insert(es.last().1).len() >= 1) by {
            vstd::set_lib::lemma_set_empty_equivalency_len(p.insert(es.last().1));
        }
        assert(node_set(root_name, es).len() >= 1) by {
            vstd::set_lib::lemma_set_empty_equivalency_len(node_set(root_name, es));
        }
    } else {
        assert(set![root_name].len() == 1);
    }
}

/// The edges at hop `h`, in order.
pub fn edges_at_hop(edges: &Vec<ClosureEdgeJson>, h: usize) -> (r: Vec<ClosureEdgeJson>)
    ensures
        edges_view(r@) == edges_view(edges@).filter(|e: EdgeView| e.0 == h as nat),
{
    let ghost all = edges_view(edges@);
    let ghost pred = |e: EdgeView| e.0 == h as nat;
    let mut out: Vec<ClosureEdgeJson> = Vec::new();
    let mut i: usize = 0;
    assert(all.take(0).filter(pred) =~= Seq::<EdgeView>::empty()) by {
        reveal_with_fuel(Seq::filter, 1);
    }
    while i < edges.len()
        invariant
            i <= edges@.len(),
            all == edges_view(edges@),
            pred == (|e: EdgeView| e.0 == h as nat),
            edges_view(out@) == all.take(i as int).filter(pred),
        decreases edges.len() - i,
    {
        let e = &edges[i];
        proof {
            reveal_with_fuel(Seq::filter, 1);
            assert(all.take(i + 1).drop_last() =~= all.take(i as int));
            assert(all.take(i + 1).last() == edge_view(*e));
        }
        if e.hop == h {
            let ghost o = out@;
            out.push(copy_edge(e));
            assert(edges_view(out@) =~= edges_view(o).push(edge_view(*e)));
        }
        i = i + 1;
    }
    assert(all.take(edges@.len() as int) =~= all);
    out
}

} // verus!
