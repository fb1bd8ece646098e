//! Detection of mutual recursion: files of one repository that call each
//! other, and pairs of repositories that call each other.
//!
//! The queries are built here and their result rows are read here; running
//! them is left to the caller. The ecosystem scan walks the pairs of backbone
//! repositories with [`first_pair`] and [`next_pair`].
use vstd::prelude::*;
use crate::numbers;
use crate::registry;
use crate::registry::{CacheRepoDir, RepoRef};
use crate::text;

verus! {

/// Options of a cycle detection request.
pub struct CyclesOptions {
    pub repo: Option<String>,
    pub format: String,
    pub endpoint: Option<String>,
}

/// One detected cycle.
#[derive(Debug)]
pub struct DetectedCycleJson {
    pub cycle_type: String,
    pub entity_a: String,
    pub entity_b: String,
    pub evidence: String,
}

/// View of a cycle: type, first entity, second entity, evidence.
pub type CycleView = (Seq<char>, Seq<char>, Seq<char>, Seq<char>);

/// View of a cycle.
pub open spec fn cycle_view(c: DetectedCycleJson) -> CycleView {
    (c.cycle_type@, c.entity_a@, c.entity_b@, c.evidence@)
}

/// View of a list of cycles.
pub open spec fn cycles_view(cs: Seq<DetectedCycleJson>) -> Seq<CycleView> {
    cs.map_values(|c: DetectedCycleJson| cycle_view(c))
}

/// Name of the scope of a report: the repository asked for, or the backbone.
pub open spec fn scope_name_spec(repo: Option<Seq<char>>) -> Seq<char> {
    match repo {
        Some(r) => r,
        None => "Ecosystem Backbone"@,
    }
}

/// Name of the scope of a report.
pub fn scope_name(repo: Option<&str>) -> (s: String)
    ensures
        s@ == scope_name_spec(
            match repo {
                Some(r) => Some(r@),
                None => None,
            },
        ),
{
    match repo {
        Some(r) => r.to_owned(),
        None => {
            proof {
                reveal_strlit("Ecosystem Backbone");
            }
            "Ecosystem Backbone".to_owned()
        },
    }
}

/// Head of the query for files that call each other, up to the graph IRI.
pub const INTERNAL_QUERY_HEAD: &'static str = "\nPREFIX lx: <https://repolex.ai/ontology/repolex/lsp-extension/>\nSELECT DISTINCT ?srcA ?srcB\nWHERE {\n  GRAPH <";

/// Tail of the query for files that call each other.
pub const INTERNAL_QUERY_TAIL: &'static str = "> {\n    ?e1 lx:resolutionSourceFile ?srcA ;\n        lx:callTargetFile ?srcB .\n    ?e2 lx:resolutionSourceFile ?srcB ;\n        lx:callTargetFile ?srcA .\n    FILTER(STR(?srcA) < STR(?srcB))\n  }\n}\nLIMIT 20\n";

/// Head of the query for the packages a graph calls into.
pub const OUTGOING_QUERY_HEAD: &'static str = "\nPREFIX lx: <https://repolex.ai/ontology/repolex/lsp-extension/>\nSELECT DISTINCT ?targetPkg\nWHERE {\n  GRAPH <";

/// Tail of the query for the packages a graph calls into.
pub const OUTGOING_QUERY_TAIL: &'static str = "> {\n    ?e lx:externalPackage ?targetPkg .\n  }\n}\n";

/// Head of the query counting calls back into a package.
pub const REVERSE_QUERY_HEAD: &'static str = "\nPREFIX lx: <https://repolex.ai/ontology/repolex/lsp-extension/>\nSELECT (COUNT(?e) as ?cnt)\nWHERE {\n  GRAPH <";

/// Middle of the query counting calls back into a package.
pub const REVERSE_QUERY_MID: &'static str = "> {\n    ?e lx:externalPackage ?callerPkg .\n    FILTER(LCASE(STR(?callerPkg)) = \"";

/// Tail of the query counting calls back into a package.
pub const REVERSE_QUERY_TAIL: &'static str = "\")\n  }\n}\n";

/// First part of the query counting the calls between two repositories.
pub const PAIR_QUERY_A: &'static str = "\nPREFIX lx: <https://repolex.ai/ontology/repolex/lsp-extension/>\nSELECT ?cnt1 ?cnt2\nWHERE {\n  {\n    SELECT (COUNT(?e1) AS ?cnt1) WHERE {\n      GRAPH <";

/// Second part of the pair query.
pub const PAIR_QUERY_B: &'static str = "> {\n        ?e1 lx:externalPackage ?pkgB .\n        FILTER(LCASE(STR(?pkgB)) = \"";

/// Third part of the pair query.
pub const PAIR_QUERY_C: &'static str = "\")\n      }\n    }\n  }\n  {\n    SELECT (COUNT(?e2) AS ?cnt2) WHERE {\n      GRAPH <";

/// Fourth part of the pair query.
pub const PAIR_QUERY_D: &'static str = "> {\n        ?e2 lx:externalPackage ?pkgA .\n        FILTER(LCASE(STR(?pkgA)) = \"";

/// Last part of the pair query.
pub const PAIR_QUERY_E: &'static str = "\")\n      }\n    }\n  }\n}\n";

/// Query for pairs of files of one graph that call each other.
pub open spec fn internal_query(lsp: Seq<char>) -> Seq<char> {
    INTERNAL_QUERY_HEAD@ + lsp + INTERNAL_QUERY_TAIL@
}

/// Query for the packages a graph calls into.
pub open spec fn outgoing_query(lsp: Seq<char>) -> Seq<char> {
    OUTGOING_QUERY_HEAD@ + lsp + OUTGOING_QUERY_TAIL@
}

/// Query counting the calls of graph `lsp` into the package named `caller`.
pub open spec fn reverse_query(lsp: Seq<char>, caller: Seq<char>) -> Seq<char> {
    REVERSE_QUERY_HEAD@ + lsp + REVERSE_QUERY_MID@ + caller + REVERSE_QUERY_TAIL@
}

/// Query counting the calls of `lsp1` into `name2` and of `lsp2` into `name1`.
pub open spec fn pair_query(lsp1: Seq<char>, name2: Seq<char>, lsp2: Seq<char>, name1: Seq<char>) -> Seq<
    char,
> {
    PAIR_QUERY_A@ + lsp1 + PAIR_QUERY_B@ + name2 + PAIR_QUERY_C@ + lsp2 + PAIR_QUERY_D@ + name1
        + PAIR_QUERY_E@
}

/// LSP graph IRI of a repository view.
pub open spec fn lsp_of(r: (Seq<char>, Seq<char>, Seq<char>)) -> Seq<char> {
    registry::graph_iri(r.0, r.1, "lsp"@, r.2)
}

/// The query for files of `repo` that call each other.
pub fn build_internal_query(repo: &RepoRef) -> (s: String)
    ensures
        s@ == internal_query(lsp_of(repo@)),
{
    let iri = repo.lsp_graph();
    let mut v = text::chars_of(INTERNAL_QUERY_HEAD);
    text::push_str(&mut v, iri.as_str());
    text::push_str(&mut v, INTERNAL_QUERY_TAIL);
    text::string_from_chars(&v)
}

/// The query for the packages `repo` calls into.
pub fn build_outgoing_query(repo: &RepoRef) -> (s: String)
    ensures
        s@ == outgoing_query(lsp_of(repo@)),
{
    let iri = repo.lsp_graph();
    let mut v = text::chars_of(OUTGOING_QUERY_HEAD);
    text::push_str(&mut v, iri.as_str());
    text::push_str(&mut v, OUTGOING_QUERY_TAIL);
    text::string_from_chars(&v)
}

/// The query counting the calls of `target` back into `repo` (matched by
/// its lower-cased repository name).
pub fn build_reverse_query(target: &RepoRef, repo: &RepoRef) -> (s: String)
    ensures
        s@ == reverse_query(lsp_of(target@), text::lower(repo.repo@)),
{
    let iri = target.lsp_graph();
    let name = text::to_lower(repo.repo.as_str());
    let mut v = text::chars_of(REVERSE_QUERY_HEAD);
    text::push_str(&mut v, iri.as_str());
    text::push_str(&mut v, REVERSE_QUERY_MID);
    text::push_str(&mut v, name.as_str());
    text::push_str(&mut v, REVERSE_QUERY_TAIL);
    text::string_from_chars(&v)
}

/// The query counting the calls between two repositories in both directions.
pub fn build_pair_query(r1: &RepoRef, r2: &RepoRef) -> (s: String)
    ensures
        s@ == pair_query(lsp_of(r1@), text::lower(r2.repo@), lsp_of(r2@), text::lower(r1.repo@)),
{
    let i1 = r1.lsp_graph();
    let i2 = r2.lsp_graph();
    let n1 = text::to_lower(r1.repo.as_str());
    let n2 = text::to_lower(r2.repo.as_str());
    let mut v = text::chars_of(PAIR_QUERY_A);
    text::push_str(&mut v, i1.as_str());
    text::push_str(&mut v, PAIR_QUERY_B);
    text::push_str(&mut v, n2.as_str());
    text::push_str(&mut v, PAIR_QUERY_C);
    text::push_str(&mut v, i2.as_str());
    text::push_str(&mut v, PAIR_QUERY_D);
    text::push_str(&mut v, n1.as_str());
    text::push_str(&mut v, PAIR_QUERY_E);
    text::string_from_chars(&v)
}

/// The record of two files that call each other.
pub open spec fn internal_cycle(a: Seq<char>, b: Seq<char>) -> CycleView {
    (
        "Internal Cross-File Mutual Call"@,
        a,
        b,
        "Mutual function invocation between "@ + a + " and "@ + b,
    )
}

/// The internal cycles of the result rows: one per row of two or more cells,
/// from its first two cells, in order.
pub open spec fn internal_cycles_spec(rows: Seq<Vec<String>>) -> Seq<CycleView>
    decreases rows.len(),
{
    if rows.len() == 0 {
        Seq::empty()
    } else {
        let p = internal_cycles_spec(rows.drop_last());
        let r = rows.last()@;
        if r.len() >= 2 {
            p.push(internal_cycle(r[0]@, r[1]@))
        } else {
            p
        }
    }
}

fn make_cycle(kind: &str, a: &str, b: &str, evidence: Vec<char>) -> (c: DetectedCycleJson)
    ensures
        cycle_view(c) == (kind@, a@, b@, evidence@),
{
    DetectedCycleJson {
        cycle_type: kind.to_owned(),
        entity_a: a.to_owned(),
        entity_b: b.to_owned(),
        evidence: text::string_from_chars(&evidence),
    }
}

/// Reads the rows of the internal-cycle query.
pub fn internal_cycles(rows: &Vec<Vec<String>>) -> (r: Vec<DetectedCycleJson>)
    ensures
        cycles_view(r@) == internal_cycles_spec(rows@),
{
    let mut out: Vec<DetectedCycleJson> = Vec::new();
    let mut i: usize = 0;
    while i < rows.len()
        invariant
            i <= rows@.len(),
            cycles_view(out@) == internal_cycles_spec(rows@.take(i as int)),
        decreases rows.len() - i,
    {
        proof {
            assert(rows@.take(i + 1).drop_last() =~= rows@.take(i as int));
            assert(rows@.take(i + 1).last() == rows@[i as int]);
        }
        let row = &rows[i];
        if row.len() >= 2 {
            let a = row[0].as_str();
            let b = row[1].as_str();
            let mut ev = text::chars_of("Mutual function invocation between ");
            text::push_str(&mut ev, a);
            text::push_str(&mut ev, " and ");
            text::push_str(&mut ev, b);
            let ghost o = out@;
            out.push(make_cycle("Internal Cross-File Mutual Call", a, b, ev));
            assert(cycles_view(out@) =~= cycles_view(o).push(internal_cycle(a@, b@)));
        }
        i = i + 1;
    }
    assert(rows@.take(rows@.len() as int) =~= rows@);
    out
}

/// The number in cell `col` of the first row: 0 when there is no such cell
/// or it is not a number.
pub open spec fn first_row_count(rows: Seq<Vec<String>>, col: int) -> nat {
    if rows.len() > 0 && 0 <= col < rows[0]@.len() {
        match numbers::parse_decimal(rows[0]@[col]@, usize::MAX as nat) {
            Some(n) => n,
            None => 0,
        }
    } else {
        0
    }
}

/// Reads the number in cell `col` of the first row.
pub fn first_row_count_exec(rows: &Vec<Vec<String>>, col: usize) -> (n: usize)
    ensures
        n == first_row_count(rows@, col as int),
{
    if rows.len() > 0 && col < rows[0].len() {
        match numbers::parse_usize(rows[0][col].as_str()) {
            Some(n) => n,
            None => 0,
        }
    } else {
        0
    }
}

/// The repositories the package names of the outgoing query resolve to, in
/// the order of the rows; rows without a first cell and names that resolve
/// to nothing are skipped.
pub open spec fn outgoing_targets_spec(rows: Seq<Vec<String>>, cache: Option<Seq<CacheRepoDir>>) -> Seq<
    (Seq<char>, Seq<char>, Seq<char>),
>
    decreases rows.len(),
{
    if rows.len() == 0 {
        Seq::empty()
    } else {
        let p = outgoing_targets_spec(rows.drop_last(), cache);
        let r = rows.last()@;
        if r.len() > 0 {
            match registry::resolve_spec(r[0]@, cache) {
                Some(t) => p.push(t),
                None => p,
            }
        } else {
            p
        }
    }
}

/// Resolves the package names of the outgoing query to repositories.
pub fn outgoing_targets(rows: &Vec<Vec<String>>, cache: Option<&Vec<CacheRepoDir>>) -> (r: Vec<
    RepoRef,
>)
    ensures
        r@.map_values(|x: RepoRef| x@) == outgoing_targets_spec(rows@, registry::opt_cache_view(cache)),
{
    let ghost cv = registry::opt_cache_view(cache);
    let mut out: Vec<RepoRef> = Vec::new();
    let mut i: usize = 0;
    while i < rows.len()
        invariant
            i <= rows@.len(),
            cv == registry::opt_cache_view(cache),
            out@.map_values(|x: RepoRef| x@) == outgoing_targets_spec(rows@.take(i as int), cv),
        decreases rows.len() - i,
    {
        proof {
            assert(rows@.take(i + 1).drop_last() =~= rows@.take(i as int));
            assert(rows@.take(i + 1).last() == rows@[i as int]);
        }
        let row = &rows[i];
        if row.len() > 0 {
            match registry::resolve_repo(row[0].as_str(), cache) {
                Some(t) => {
                    let ghost o = out@;
                    let ghost tv = t@;
                    out.push(t);
                    assert(out@.map_values(|x: RepoRef| x@) =~= o.map_values(|x: RepoRef| x@).push(
                        tv,
                    ));
                },
                None => {},
            }
        }
        i = i + 1;
    }
    assert(rows@.take(rows@.len() as int) =~= rows@);
    out
}

/// The cycle between `repo` and `target` when `target` calls back into
/// `repo` at least once.
pub open spec fn reverse_cycle_spec(repo: Seq<char>, target: Seq<char>, rev_count: nat) -> Option<
    CycleView,
> {
    if rev_count > 0 {
        Some(
            (
                "Cross-Package Mutual Dependency Cycle"@,
                repo,
                target,
                "Mutual cross-calls between "@ + repo + " and "@ + target,
            ),
        )
    } else {
        None
    }
}

/// Reads the reverse-count rows: a cycle between the repositories when the
/// count in the first cell of the first row is positive.
pub fn reverse_cycle(repo: &RepoRef, target: &RepoRef, rev_rows: &Vec<Vec<String>>) -> (r: Option<
    DetectedCycleJson,
>)
    ensures
        match r {
            Some(c) => reverse_cycle_spec(repo.repo@, target.repo@, first_row_count(rev_rows@, 0))
                == Some(cycle_view(c)),
            None => reverse_cycle_spec(repo.repo@, target.repo@, first_row_count(rev_rows@, 0)) is None,
        },
{
    let n = first_row_count_exec(rev_rows, 0);
    if n > 0 {
        let a = repo.repo.as_str();
        let b = target.repo.as_str();
        let mut ev = text::chars_of("Mutual cross-calls between ");
        text::push_str(&mut ev, a);
        text::push_str(&mut ev, " and ");
        text::push_str(&mut ev, b);
        Some(make_cycle("Cross-Package Mutual Dependency Cycle", a, b, ev))
    } else {
        None
    }
}

/// The cycle between two backbone repositories when each calls the other.
pub open spec fn pair_cycle_spec(a: Seq<char>, b: Seq<char>, c1: nat, c2: nat) -> Option<CycleView> {
    if c1 > 0 && c2 > 0 {
        Some(
            (
                "Ecosystem Mutual Recursion"@,
                a,
                b,
                a + " calls "@ + b + " ("@ + numbers::decimal(c1) + " times), and "@ + b
                    + " calls "@ + a + " ("@ + numbers::decimal(c2) + " times)"@,
            ),
        )
    } else {
        None
    }
}

/// Reads the pair-query rows: the two counts are the first two cells of the
/// first row.
pub fn pair_cycle(r1: &RepoRef, r2: &RepoRef, rows: &Vec<Vec<String>>) -> (r: Option<
    DetectedCycleJson,
>)
    ensures
        match r {
            Some(c) => pair_cycle_spec(
                r1.repo@,
                r2.repo@,
                first_row_count(rows@, 0),
                first_row_count(rows@, 1),
            ) == Some(cycle_view(c)),
            None => pair_cycle_spec(
                r1.repo@,
                r2.repo@,
                first_row_count(rows@, 0),
                first_row_count(rows@, 1),
            ) is None,
        },
{
    let c1 = first_row_count_exec(rows, 0);
    let c2 = first_row_count_exec(rows, 1);
    if c1 > 0 && c2 > 0 {
        let a = r1.repo.as_str();
        let b = r2.repo.as_str();
        let mut ev = text::chars_of(a);
        text::push_str(&mut ev, " calls ");
        text::push_str(&mut ev, b);
        text::push_str(&mut ev, " (");
        let d1 = numbers::decimal_chars(c1 as u64);
        text::push_all(&mut ev, &d1);
        text::push_str(&mut ev, " times), and ");
        text::push_str(&mut ev, b);
        text::push_str(&mut ev, " calls ");
        text::push_str(&mut ev, a);
        text::push_str(&mut ev, " (");
        let d2 = numbers::decimal_chars(c2 as u64);
        text::push_all(&mut ev, &d2);
        text::push_str(&mut ev, " times)");
        Some(make_cycle("Ecosystem Mutual Recursion", a, b, ev))
    } else {
        None
    }
}

/// The first pair `(0, 1)` of indices below `n`, if there is one.
pub fn first_pair(n: usize) -> (r: Option<(usize, usize)>)
    ensures
        r == (if n >= 2 {
            Some((0usize, 1usize))
        } else {
            None
        }),
{
    if n >= 2 {
        Some((0, 1))
    } else {
        None
    }
}

/// The pair that follows `(i, j)` when the pairs `i < j < n` are taken in
/// order of `i`, then of `j`.
pub open spec fn next_pair_spec(i: nat, j: nat, n: nat) -> Option<(nat, nat)> {
    if j + 1 < n {
        Some((i, j + 1))
    } else if i + 2 < n {
        Some((i + 1, i + 2))
    } else {
        None
    }
}

/// The pair after `(i, j)` among the pairs `i < j < n`.
pub fn next_pair(i: usize, j: usize, n: usize) -> (r: Option<(usize, usize)>)
    requires
        i < j < n,
    ensures
        match r {
            Some((a, b)) => next_pair_spec(i as nat, j as nat, n as nat) == Some((a as nat, b as nat)),
            None => next_pair_spec(i as nat, j as nat, n as nat) is None,
        },
{
    if j + 1 < n {
        Some((i, j + 1))
    } else if i + 2 < n {
        Some((i + 1, i + 2))
    } else {
        None
    }
}

/// Lexicographic order on pairs.
pub open spec fn pair_lt(a: (nat, nat), b: (nat, nat)) -> bool {
    a.0 < b.0 || (a.0 == b.0 && a.1 < b.1)
}

/// Walking the pairs from `(0, 1)` with `next_pair` meets every pair
/// `i < j < n` once, in order: the pair after `(i, j)` is again such a pair,
/// comes after it, and no such pair lies between them; the walk ends only
/// after the last pair.
pub proof fn law_next_pair_is_successor(i: nat, j: nat, n: nat)
    requires
        i < j < n,
    ensures
        match next_pair_spec(i, j, n) {
            Some(p) => {
                &&& p.0 < p.1 < n
                &&& pair_lt((i, j), p)
                &&& forall|a: nat, b: nat|
                    #![trigger pair_lt((i, j), (a, b)), pair_lt((a, b), p)]
                    a < b < n ==> !(pair_lt((i, j), (a, b)) && pair_lt((a, b), p))
            },
            None => forall|a: nat, b: nat|
                #![trigger pair_lt((i, j), (a, b))]
                a < b < n ==> !pair_lt((i, j), (a, b)),
        },
{
}

/// A pair of repositories is reported as mutual recursion exactly when each
/// calls the other: both counts of the pair query's first row are positive;
/// a one-way dependency (either count 0) is no cycle. A reported pair names
/// the two repositories in order.
pub proof fn law_pair_cycle_needs_both_directions(a: Seq<char>, b: Seq<char>, c1: nat, c2: nat)
    ensures
        pair_cycle_spec(a, b, c1, c2) is Some <==> (c1 > 0 && c2 > 0),
        c1 == 0 ==> pair_cycle_spec(a, b, c1, c2) is None,
        c2 == 0 ==> pair_cycle_spec(a, b, c1, c2) is None,
        pair_cycle_spec(a, b, c1, c2) matches Some(v) ==> v.1 == a && v.2 == b,
{
}

} // verus!
