//! Store and repository audits: report records, thousands separators, the
//! ordering of graph layers, and the health verdict of a repository.
use vstd::prelude::*;
use crate::numbers;
use crate::order;
use crate::text;
use vstd::string::StrSliceExecFns;
use vstd::string::StringSliceAdditionalSpecFns;

verus! {

/// Quad counts per graph layer of the whole store.
pub struct GraphDistributionJson {
    pub ast_quads: u64,
    pub repolex_quads: u64,
    pub lsp_quads: u64,
    pub git_structure_quads: u64,
}

/// One graph layer present for a repository commit.
#[derive(Debug)]
pub struct RepoGraphInfo {
    pub graph_type: String,
    pub iri: String,
    pub quads: u64,
}

/// Counts of syntax items of a repository commit.
#[derive(Debug)]
pub struct CodeMetrics {
    pub files_count: usize,
    pub functions_count: usize,
    pub structs_count: usize,
    pub enums_count: usize,
    pub impls_count: usize,
    pub calls_count: usize,
    pub macros_count: usize,
}

impl Default for CodeMetrics {
    fn default() -> (m: Self)
        ensures
            m.files_count == 0 && m.functions_count == 0 && m.structs_count == 0
                && m.enums_count == 0 && m.impls_count == 0 && m.calls_count == 0
                && m.macros_count == 0,
    {
        CodeMetrics {
            files_count: 0,
            functions_count: 0,
            structs_count: 0,
            enums_count: 0,
            impls_count: 0,
            calls_count: 0,
            macros_count: 0,
        }
    }
}

/// A source file and the number of functions it defines.
#[derive(Debug)]
pub struct ModuleComplexity {
    pub file_path: String,
    pub function_count: usize,
}

/// An external package and the number of call sites that reach it.
#[derive(Debug)]
pub struct ExternalDepCall {
    pub package_name: String,
    pub call_count: usize,
}

/// A dependency declared in the package manifest.
#[derive(Debug)]
pub struct DeclaredDep {
    pub package_name: String,
    pub version: Option<String>,
    pub github_repo: Option<String>,
}

/// Outcome of the cycle audit of a repository.
#[derive(Debug)]
pub struct CycleAuditResult {
    pub is_clean_dag: bool,
    pub internal_cycles_count: usize,
    pub cross_package_cycles_count: usize,
    pub cycle_details: Vec<String>,
}

/// Render `n` with a comma between groups of three digits.
pub fn format_number(n: u64) -> (r: String)
    ensures
        r@ == numbers::group_thousands(numbers::decimal(n as nat)),
{
    let d = numbers::decimal_chars(n);
    let g = numbers::group_thousands_chars(&d, d.len());
    assert(d@.take(d@.len() as int) =~= d@);
    text::string_from_chars(&g)
}

/// Position of a graph layer in reports: AST, LSP, DEP, REPOLEX, then others.
pub open spec fn graph_rank(t: Seq<char>) -> nat {
    if t == "AST"@ {
        0
    } else if t == "LSP"@ {
        1
    } else if t == "DEP"@ {
        2
    } else if t == "REPOLEX"@ {
        3
    } else {
        4
    }
}

fn graph_rank_exec(t: &str) -> (r: u8)
    ensures
        r as nat == graph_rank(t@),
{
    if text::str_eq(t, "AST") {
        0
    } else if text::str_eq(t, "LSP") {
        1
    } else if text::str_eq(t, "DEP") {
        2
    } else if text::str_eq(t, "REPOLEX") {
        3
    } else {
        4
    }
}

/// The layers of rank `k`, in the order they were given.
pub open spec fn layers_of_rank(v: Seq<RepoGraphInfo>, k: nat) -> Seq<RepoGraphInfo> {
    v.filter(|g: RepoGraphInfo| graph_rank(g.graph_type@) == k)
}

/// Layers of ranks below `k`, rank by rank, each in the order given.
pub open spec fn layers_below_rank(v: Seq<RepoGraphInfo>, k: nat) -> Seq<RepoGraphInfo>
    decreases k,
{
    if k == 0 {
        Seq::empty()
    } else {
        layers_below_rank(v, (k - 1) as nat) + layers_of_rank(v, (k - 1) as nat)
    }
}

/// Layers ordered by rank, keeping the given order within a rank (a
/// stable sort by rank).
pub open spec fn layers_by_rank(v: Seq<RepoGraphInfo>) -> Seq<RepoGraphInfo> {
    layers_below_rank(v, 5)
}

fn copy_layer(g: &RepoGraphInfo) -> (r: RepoGraphInfo)
    ensures
        r == *g,
{
    RepoGraphInfo { graph_type: g.graph_type.clone(), iri: g.iri.clone(), quads: g.quads }
}

/// Sort graph layers: AST, LSP, DEP, REPOLEX, then others, stably.
pub fn sort_graph_layers(v: &Vec<RepoGraphInfo>) -> (r: Vec<RepoGraphInfo>)
    ensures
        r@ == layers_by_rank(v@),
{
    let mut out: Vec<RepoGraphInfo> = Vec::new();
    let mut k: u8 = 0;
    while k < 5
        invariant
            k <= 5,
            out@ == layers_below_rank(v@, k as nat),
        decreases 5 - k,
    {
        let mut i: usize = 0;
        assert(v@.take(0).filter(|g: RepoGraphInfo| graph_rank(g.graph_type@) == k as nat)
            =~= Seq::<RepoGraphInfo>::empty()) by {
            reveal_with_fuel(Seq::filter, 1);
        }
        while i < v.len()
            invariant
                k < 5,
                i <= v.len(),
                out@ == layers_below_rank(v@, k as nat) + layers_of_rank(v@.take(i as int), k as nat),
            decreases v.len() - i,
        {
            let ghost o = out@;
            let rk = graph_rank_exec(v[i].graph_type.as_str());
            if rk == k {
                out.push(copy_layer(&v[i]));
            }
            proof {
                reveal_with_fuel(Seq::filter, 1);
                assert(v@.take(i + 1).drop_last() =~= v@.take(i as int));
                assert(v@.take(i + 1).last() == v@[i as int]);
            }
            i = i + 1;
        }
        assert(v@.take(v@.len() as int) =~= v@);
        k = k + 1;
    }
    out
}

/// Penalty for `n` cycles at `per` points each, capped at `cap`.
pub open spec fn cycle_penalty(n: nat, per: nat, cap: nat) -> nat {
    if n == 0 {
        0
    } else if n * per <= cap {
        n * per
    } else {
        cap
    }
}

/// Health score of a repository: 100, less 20 per internal cycle (at most
/// 40) and 25 per cross-package cycle (at most 50); 0 when no quad is loaded.
/// Cycle counts are taken modulo 2^32, as the score is a `u32`.
pub open spec fn health_score_spec(internal: usize, cross: usize, total_quads: u64) -> nat {
    if total_quads == 0 {
        0
    } else {
        (100 - (if internal > 0 {
            cycle_penalty((internal as u32) as nat, 20, 40)
        } else {
            0
        }) - (if cross > 0 {
            cycle_penalty((cross as u32) as nat, 25, 50)
        } else {
            0
        })) as nat
    }
}

/// Health score of a repository audit.
pub fn health_score(internal_cycles: usize, cross_pkg_cycles: usize, total_quads: u64) -> (r: u32)
    requires
        (internal_cycles as u32) * 20 <= u32::MAX,
        (cross_pkg_cycles as u32) * 25 <= u32::MAX,
    ensures
        r as nat == health_score_spec(internal_cycles, cross_pkg_cycles, total_quads),
{
    let mut health: u32 = 100;
    if internal_cycles > 0 {
        let p = internal_cycles as u32 * 20;
        let p = if p < 40 {
            p
        } else {
            40
        };
        health = health.saturating_sub(p);
    }
    if cross_pkg_cycles > 0 {
        let p = cross_pkg_cycles as u32 * 25;
        let p = if p < 50 {
            p
        } else {
            50
        };
        health = health.saturating_sub(p);
    }
    if total_quads == 0 {
        health = 0;
    }
    health
}

/// Verdict of an unloaded repository.
pub const STATUS_UNINDEXED: &'static str = "UNINDEXED (Zero quads found in local store)";

/// Verdict of a repository without cycles and with full score.
pub const STATUS_OPTIMAL: &'static str = "OPTIMAL (100% Clean DAG Architecture)";

/// Verdict of a repository without cycles.
pub const STATUS_HEALTHY: &'static str = "HEALTHY (Clean DAG with minor warnings)";

/// Verdict of a repository with cycles.
pub const STATUS_ACTION_REQUIRED: &'static str = "ACTION REQUIRED (Circular dependencies detected)";

/// The verdict of a repository audit.
pub open spec fn overall_status_spec(total_quads: u64, health_score: u32, is_clean_dag: bool) -> Seq<char> {
    if total_quads == 0 {
        STATUS_UNINDEXED@
    } else if health_score == 100 && is_clean_dag {
        STATUS_OPTIMAL@
    } else if is_clean_dag {
        STATUS_HEALTHY@
    } else {
        STATUS_ACTION_REQUIRED@
    }
}

/// The verdict of a repository audit.
pub fn overall_status(total_quads: u64, health_score: u32, is_clean_dag: bool) -> (r: String)
    ensures
        r@ == overall_status_spec(total_quads, health_score, is_clean_dag),
{
    if total_quads == 0 {
        STATUS_UNINDEXED.to_owned()
    } else if health_score == 100 && is_clean_dag {
        STATUS_OPTIMAL.to_owned()
    } else if is_clean_dag {
        STATUS_HEALTHY.to_owned()
    } else {
        STATUS_ACTION_REQUIRED.to_owned()
    }
}

/// The metrics after a count for the syntax type `type_iri`: the first of
/// `function_item`, `struct_item`, `enum_item`, `impl_item`,
/// `call_expression`, `macro_invocation` that ends the type sets its field;
/// other types change nothing.
pub open spec fn metrics_after(m: CodeMetrics, type_iri: Seq<char>, cnt: usize) -> CodeMetrics {
    if text::ends_with_seq(type_iri, "function_item"@) {
        CodeMetrics { functions_count: cnt, ..m }
    } else if text::ends_with_seq(type_iri, "struct_item"@) {
        CodeMetrics { structs_count: cnt, ..m }
    } else if text::ends_with_seq(type_iri, "enum_item"@) {
        CodeMetrics { enums_count: cnt, ..m }
    } else if text::ends_with_seq(type_iri, "impl_item"@) {
        CodeMetrics { impls_count: cnt, ..m }
    } else if text::ends_with_seq(type_iri, "call_expression"@) {
        CodeMetrics { calls_count: cnt, ..m }
    } else if text::ends_with_seq(type_iri, "macro_invocation"@) {
        CodeMetrics { macros_count: cnt, ..m }
    } else {
        m
    }
}

/// Record the count of one syntax type in the metrics.
pub fn record_item_count(m: &mut CodeMetrics, type_iri: &str, cnt: usize)
    ensures
        *final(m) == metrics_after(*old(m), type_iri@, cnt),
{
    if text::str_ends_with(type_iri, "function_item") {
        m.functions_count = cnt;
    } else if text::str_ends_with(type_iri, "struct_item") {
        m.structs_count = cnt;
    } else if text::str_ends_with(type_iri, "enum_item") {
        m.enums_count = cnt;
    } else if text::str_ends_with(type_iri, "impl_item") {
        m.impls_count = cnt;
    } else if text::str_ends_with(type_iri, "call_expression") {
        m.calls_count = cnt;
    } else if text::str_ends_with(type_iri, "macro_invocation") {
        m.macros_count = cnt;
    }
}

/// View of a declared dependency.
pub open spec fn declared_dep_view(d: DeclaredDep) -> (Seq<char>, Option<Seq<char>>, Option<Seq<char>>) {
    (
        d.package_name@,
        match d.version {
            Some(v) => Some(v@),
            None => None,
        },
        match d.github_repo {
            Some(g) => Some(g@),
            None => None,
        },
    )
}

/// The declared dependency a result row `[name, version, org, repo]`
/// describes: empty cells count as missing, and the repository is
/// `org/repo` only when both are present.
pub open spec fn declared_dep_from_row_spec(row: Seq<String>) -> (Seq<char>, Option<Seq<char>>, Option<Seq<char>>) {
    (
        row[0]@,
        if row.len() > 1 && row[1]@.len() > 0 {
            Some(row[1]@)
        } else {
            None
        },
        if row.len() > 3 && row[2]@.len() > 0 && row[3]@.len() > 0 {
            Some(row[2]@ + "/"@ + row[3]@)
        } else {
            None
        },
    )
}

/// The declared dependency of a result row; an empty row gives none.
pub fn declared_dep_from_row(row: &Vec<String>) -> (r: Option<DeclaredDep>)
    ensures
        r is None <==> row.len() == 0,
        r matches Some(d) ==> declared_dep_view(d) == declared_dep_from_row_spec(row@),
{
    if row.len() == 0 {
        return None;
    }
    let name = row[0].clone();
    let ver = if row.len() > 1 && row[1].as_str().unicode_len() > 0 {
        Some(row[1].clone())
    } else {
        None
    };
    let gh = if row.len() > 3 && row[2].as_str().unicode_len() > 0 && row[3].as_str().unicode_len()
        > 0 {
        let mut v = text::chars_of(row[2].as_str());
        text::push_str(&mut v, "/");
        text::push_str(&mut v, row[3].as_str());
        Some(text::string_from_chars(&v))
    } else {
        None
    };
    Some(DeclaredDep { package_name: name, version: ver, github_repo: gh })
}


/// The number in cell `col` of a row read as a `u64`, 0 when absent or not
/// a number.
pub open spec fn cell_u64(row: Seq<String>, col: int) -> nat {
    if 0 <= col < row.len() {
        match numbers::parse_decimal(row[col]@, u64::MAX as nat) {
            Some(n) => n,
            None => 0,
        }
    } else {
        0
    }
}

/// The number in cell `col` of a row read as a `usize`, 0 when absent or
/// not a number.
pub open spec fn cell_usize(row: Seq<String>, col: int) -> nat {
    if 0 <= col < row.len() {
        match numbers::parse_decimal(row[col]@, usize::MAX as nat) {
            Some(n) => n,
            None => 0,
        }
    } else {
        0
    }
}

fn cell_u64_exec(row: &Vec<String>, col: usize) -> (n: u64)
    ensures
        n == cell_u64(row@, col as int),
{
    if col < row.len() {
        match numbers::parse_u64(row[col].as_str()) {
            Some(n) => n,
            None => 0,
        }
    } else {
        0
    }
}

fn cell_usize_exec(row: &Vec<String>, col: usize) -> (n: usize)
    ensures
        n == cell_usize(row@, col as int),
{
    if col < row.len() {
        match numbers::parse_usize(row[col].as_str()) {
            Some(n) => n,
            None => 0,
        }
    } else {
        0
    }
}

/// Quad count a layer row `[type, count]` contributes: rows of fewer than
/// two cells count nothing.
pub open spec fn layer_count(row: Seq<String>) -> nat {
    if row.len() >= 2 {
        cell_u64(row, 1)
    } else {
        0
    }
}

/// Total of the layer counts of the rows.
pub open spec fn layers_total(rows: Seq<Vec<String>>) -> nat
    decreases rows.len(),
{
    if rows.len() == 0 {
        0
    } else {
        layers_total(rows.drop_last()) + layer_count(rows.last()@)
    }
}

/// The graph layers of a repository commit with their counts.
pub struct LayerTally {
    pub graphs: Vec<RepoGraphInfo>,
    pub total_quads: u64,
    pub ast_quads: u64,
    pub lsp_quads: u64,
    pub dep_quads: u64,
}

/// View of a graph layer record.
pub open spec fn graph_info_view(g: RepoGraphInfo) -> (Seq<char>, Seq<char>, nat) {
    (g.graph_type@, g.iri@, g.quads as nat)
}

/// View of a tally: layers, total, AST, LSP and DEP counts.
pub type TallyView = (Seq<(Seq<char>, Seq<char>, nat)>, nat, nat, nat, nat);

/// View of a tally.
pub open spec fn tally_view(t: LayerTally) -> TallyView {
    (
        t.graphs@.map_values(|g: RepoGraphInfo| graph_info_view(g)),
        t.total_quads as nat,
        t.ast_quads as nat,
        t.lsp_quads as nat,
        t.dep_quads as nat,
    )
}

/// The IRIs of the AST, LSP, DEP and REPOLEX graphs of a commit.
pub type LayerIris = (Seq<char>, Seq<char>, Seq<char>, Seq<char>);

/// The tally after one row `[type, count]`: a positive count adds a layer
/// of that type with the IRI of its kind (empty for an unknown type), adds
/// to the total, and for AST, LSP and DEP sets that layer's count.
pub open spec fn layer_step(t: TallyView, row: Seq<String>, iris: LayerIris) -> TallyView {
    let c = layer_count(row);
    if c > 0 {
        let ty = row[0]@;
        let iri = if ty == "AST"@ {
            iris.0
        } else if ty == "LSP"@ {
            iris.1
        } else if ty == "DEP"@ {
            iris.2
        } else if ty == "REPOLEX"@ {
            iris.3
        } else {
            Seq::empty()
        };
        (
            t.0.push((ty, iri, c)),
            t.1 + c,
            if ty == "AST"@ { c } else { t.2 },
            if ty == "LSP"@ { c } else { t.3 },
            if ty == "DEP"@ { c } else { t.4 },
        )
    } else {
        t
    }
}

/// The tally of all rows, in order, from nothing.
pub open spec fn layers_spec(rows: Seq<Vec<String>>, iris: LayerIris) -> TallyView
    decreases rows.len(),
{
    if rows.len() == 0 {
        (Seq::empty(), 0, 0, 0, 0)
    } else {
        layer_step(layers_spec(rows.drop_last(), iris), rows.last()@, iris)
    }
}

proof fn lemma_layers_total(rows: Seq<Vec<String>>, iris: LayerIris)
    ensures
        layers_spec(rows, iris).1 == layers_total(rows),
        layers_spec(rows, iris).2 <= layers_total(rows),
        layers_spec(rows, iris).3 <= layers_total(rows),
        layers_spec(rows, iris).4 <= layers_total(rows),
    decreases rows.len(),
{
    if rows.len() > 0 {
        lemma_layers_total(rows.drop_last(), iris);
    }
}

proof fn lemma_layers_total_prefix(rows: Seq<Vec<String>>, k: int)
    requires
        0 <= k <= rows.len(),
    ensures
        layers_total(rows.take(k)) <= layers_total(rows),
    decreases rows.len() - k,
{
    if k < rows.len() {
        lemma_layers_total_prefix(rows, k + 1);
        assert(rows.take(k + 1).drop_last() =~= rows.take(k));
    } else {
        assert(rows.take(k) =~= rows);
    }
}

/// Reads the rows of the layer query into a tally; the counts must add up
/// within a `u64`.
pub fn tally_layers(rows: &Vec<Vec<String>>, ast: &str, lsp: &str, dep: &str, repolex: &str) -> (t: LayerTally)
    requires
        layers_total(rows@) <= u64::MAX,
    ensures
        tally_view(t) == layers_spec(rows@, (ast@, lsp@, dep@, repolex@)),
{
    let ghost iris = (ast@, lsp@, dep@, repolex@);
    let mut t = LayerTally { graphs: Vec::new(), total_quads: 0, ast_quads: 0, lsp_quads: 0, dep_quads: 0 };
    let mut i: usize = 0;
    assert(tally_view(t) =~= layers_spec(rows@.take(0), iris));
    while i < rows.len()
        invariant
            i <= rows@.len(),
            iris == (ast@, lsp@, dep@, repolex@),
            layers_total(rows@) <= u64::MAX,
            tally_view(t) == layers_spec(rows@.take(i as int), iris),
        decreases rows.len() - i,
    {
        let row = &rows[i];
        let ghost tv0 = tally_view(t);
        proof {
            reveal_strlit("AST");
            reveal_strlit("LSP");
            reveal_strlit("DEP");
            reveal_strlit("REPOLEX");
            assert("AST"@[0] == 'A' && "LSP"@[0] == 'L' && "DEP"@[0] == 'D' && "REPOLEX"@[0] == 'R');
            assert(rows@.take(i + 1).drop_last() =~= rows@.take(i as int));
            assert(rows@.take(i + 1).last() == rows@[i as int]);
            lemma_layers_total(rows@.take(i + 1), iris);
            lemma_layers_total_prefix(rows@, i + 1);
        }
        if row.len() >= 2 {
            let c = cell_u64_exec(row, 1);
            if c > 0 {
                let ty = row[0].as_str();
                let iri = if text::str_eq(ty, "AST") {
                    t.ast_quads = c;
                    ast.to_owned()
                } else if text::str_eq(ty, "LSP") {
                    t.lsp_quads = c;
                    lsp.to_owned()
                } else if text::str_eq(ty, "DEP") {
                    t.dep_quads = c;
                    dep.to_owned()
                } else if text::str_eq(ty, "REPOLEX") {
                    repolex.to_owned()
                } else {
                    String::new()
                };
                t.total_quads = t.total_quads + c;
                let ghost g0 = t.graphs@;
                t.graphs.push(RepoGraphInfo { graph_type: row[0].clone(), iri, quads: c });
                assert(t.graphs@.map_values(|g: RepoGraphInfo| graph_info_view(g)) =~= g0.map_values(
                    |g: RepoGraphInfo| graph_info_view(g),
                ).push(graph_info_view(t.graphs@[g0.len() as int])));
                assert(tally_view(t) == layer_step(tv0, row@, iris));
            }
        }
        assert(tally_view(t) == layer_step(tv0, row@, iris));
        i = i + 1;
    }
    assert(rows@.take(rows@.len() as int) =~= rows@);
    t
}

/// The module record of a row `[file, functions]`, when it has two cells.
pub fn module_from_row(row: &Vec<String>) -> (r: Option<ModuleComplexity>)
    ensures
        r is Some <==> row@.len() >= 2,
        r matches Some(m) ==> m.file_path@ == row@[0]@ && m.function_count == cell_usize(row@, 1),
{
    if row.len() >= 2 {
        Some(ModuleComplexity { file_path: row[0].clone(), function_count: cell_usize_exec(row, 1) })
    } else {
        None
    }
}

/// The external package record of a row `[package, calls]`, when it has
/// two cells.
pub fn external_from_row(row: &Vec<String>) -> (r: Option<ExternalDepCall>)
    ensures
        r is Some <==> row@.len() >= 2,
        r matches Some(d) ==> d.package_name@ == row@[0]@ && d.call_count == cell_usize(row@, 1),
{
    if row.len() >= 2 {
        Some(ExternalDepCall { package_name: row[0].clone(), call_count: cell_usize_exec(row, 1) })
    } else {
        None
    }
}

/// The file count of the distinct-files query: the first cell of the first
/// row read as a number, 0 otherwise.
pub fn files_count_from_rows(rows: &Vec<Vec<String>>) -> (n: usize)
    ensures
        n == (if rows@.len() > 0 { cell_usize(rows@[0]@, 0) } else { 0 }),
{
    if rows.len() > 0 {
        cell_usize_exec(&rows[0], 0)
    } else {
        0
    }
}

/// The detail line of two files that call each other, for a row of two or
/// more cells.
pub fn internal_cycle_detail(row: &Vec<String>) -> (r: Option<String>)
    ensures
        r is Some <==> row@.len() >= 2,
        r matches Some(s) ==> s@ == "Internal mutual recursion between "@ + row@[0]@ + " and "@
            + row@[1]@,
{
    if row.len() >= 2 {
        let mut v = text::chars_of("Internal mutual recursion between ");
        text::push_str(&mut v, row[0].as_str());
        text::push_str(&mut v, " and ");
        text::push_str(&mut v, row[1].as_str());
        Some(text::string_from_chars(&v))
    } else {
        None
    }
}

/// The detail line of a mutual cycle between two packages.
pub fn cross_cycle_detail(repo: &str, target: &str) -> (r: String)
    ensures
        r@ == "Cross-package mutual cycle between "@ + repo@ + " and "@ + target@,
{
    let mut v = text::chars_of("Cross-package mutual cycle between ");
    text::push_str(&mut v, repo);
    text::push_str(&mut v, " and ");
    text::push_str(&mut v, target);
    text::string_from_chars(&v)
}

/// The cycle audit of the counts and detail lines: a clean DAG when both
/// counts are zero.
pub fn cycle_audit(internal: usize, cross: usize, details: Vec<String>) -> (r: CycleAuditResult)
    ensures
        r.is_clean_dag == (internal == 0 && cross == 0),
        r.internal_cycles_count == internal,
        r.cross_package_cycles_count == cross,
        r.cycle_details@ == details@,
{
    CycleAuditResult {
        is_clean_dag: internal == 0 && cross == 0,
        internal_cycles_count: internal,
        cross_package_cycles_count: cross,
        cycle_details: details,
    }
}

/// The first commit directory of a cached repository that the store audit
/// lists: the first entry that is a directory and whose name is at least
/// eight bytes long.
pub fn inventory_commit(entries: &Vec<(String, bool)>) -> (r: Option<usize>)
    ensures
        match r {
            Some(i) => {
                &&& i < entries@.len()
                &&& entries@[i as int].1
                &&& entries@[i as int].0@.len() >= 0
                &&& vstd::utf8::encode_utf8(entries@[i as int].0@).len() >= 8
                &&& forall|j: int|
                    0 <= j < i ==> !(entries@[j].1 && vstd::utf8::encode_utf8(entries@[j].0@).len()
                        >= 8)
            },
            None => forall|j: int|
                0 <= j < entries@.len() ==> !(entries@[j].1 && vstd::utf8::encode_utf8(
                    entries@[j].0@,
                ).len() >= 8),
        },
{
    let mut i: usize = 0;
    while i < entries.len()
        invariant
            i <= entries@.len(),
            forall|j: int|
                0 <= j < i ==> !(entries@[j].1 && vstd::utf8::encode_utf8(entries@[j].0@).len()
                    >= 8),
        decreases entries.len() - i,
    {
        let e = &entries[i];
        let n = e.0.as_str().as_bytes().len();
        proof {
            vstd::utf8::encode_utf8_valid_utf8(e.0@);
        }
        if e.1 && n >= 8 {
            return Some(i);
        }
        i = i + 1;
    }
    None
}


/// View of an inventory entry: `org/repo`, short commit, size in bytes.
pub open spec fn inventory_view(e: (String, String, u64)) -> (Seq<char>, Seq<char>, u64) {
    (e.0@, e.1@, e.2)
}

/// View of an inventory.
pub open spec fn inventory_list_view(v: Seq<(String, String, u64)>) -> Seq<(Seq<char>, Seq<char>, u64)> {
    v.map_values(|e: (String, String, u64)| inventory_view(e))
}

/// Inventory order: by the `org/repo` name.
pub open spec fn inventory_le(a: (Seq<char>, Seq<char>, u64), b: (Seq<char>, Seq<char>, u64)) -> bool {
    order::lex_le(a.0, b.0)
}

proof fn lemma_inventory_total_order()
    ensures
        order::total_order(
            |a: (Seq<char>, Seq<char>, u64), b: (Seq<char>, Seq<char>, u64)| inventory_le(a, b),
        ),
{
    assert forall|a: (Seq<char>, Seq<char>, u64), b: (Seq<char>, Seq<char>, u64)|
        inventory_le(a, b) || inventory_le(b, a) by {
        order::lemma_lex_total(a.0, b.0);
    }
    assert forall|a: (Seq<char>, Seq<char>, u64), b: (Seq<char>, Seq<char>, u64), c: (Seq<char>, Seq<char>, u64)|
        inventory_le(a, b) && inventory_le(b, c) implies inventory_le(a, c) by {
        order::lemma_lex_trans(a.0, b.0, c.0);
    }
}

fn inventory_key_le(e: &(String, String, u64), k: &Vec<char>) -> (r: bool)
    ensures
        r == order::lex_le(e.0@, k@),
{
    let c = text::chars_of(e.0.as_str());
    order::chars_le(&c, k)
}

/// The store audit's inventory of cached repositories, ordered by name,
/// each entry as often as it was given.
pub fn sort_inventory(v: Vec<(String, String, u64)>) -> (r: Vec<(String, String, u64)>)
    ensures
        inventory_list_view(r@).to_multiset() == inventory_list_view(v@).to_multiset(),
        order::sorted_by(
            inventory_list_view(r@),
            |a: (Seq<char>, Seq<char>, u64), b: (Seq<char>, Seq<char>, u64)| inventory_le(a, b),
        ),
{
    let ghost le = |a: (Seq<char>, Seq<char>, u64), b: (Seq<char>, Seq<char>, u64)| inventory_le(a, b);
    proof {
        lemma_inventory_total_order();
    }
    let ghost all = inventory_list_view(v@);
    let mut src = v;
    let mut out: Vec<(String, String, u64)> = Vec::new();
    assert(inventory_list_view(out@) =~= Seq::empty());
    proof {
        inventory_list_view(out@).to_multiset_ensures();
        vstd::multiset::lemma_multiset_empty_len(inventory_list_view(out@).to_multiset());
    }
    assert(inventory_list_view(out@).to_multiset().add(inventory_list_view(src@).to_multiset())
        =~= all.to_multiset());
    while src.len() > 0
        invariant
            order::total_order(le),
            le == (|a: (Seq<char>, Seq<char>, u64), b: (Seq<char>, Seq<char>, u64)| inventory_le(a, b)),
            order::sorted_by(inventory_list_view(out@), le),
            inventory_list_view(out@).to_multiset().add(inventory_list_view(src@).to_multiset())
                == all.to_multiset(),
        decreases src.len(),
    {
        let ghost s0 = inventory_list_view(src@);
        let x = src.pop().unwrap();
        let ghost xv = inventory_view(x);
        proof {
            assert(s0 =~= inventory_list_view(src@).push(xv));
            inventory_list_view(src@).to_multiset_ensures();
        }
        let xk = text::chars_of(x.0.as_str());
        let ghost ov = inventory_list_view(out@);
        let mut pos: usize = 0;
        while pos < out.len() && inventory_key_le(&out[pos], &xk)
            invariant
                pos <= out@.len(),
                ov == inventory_list_view(out@),
                xv == inventory_view(x),
                xk@ == x.0@,
                le == (|a: (Seq<char>, Seq<char>, u64), b: (Seq<char>, Seq<char>, u64)| inventory_le(a, b)),
                forall|k: int| 0 <= k < pos ==> #[trigger] le(ov[k], xv),
            decreases out.len() - pos,
        {
            assert(ov[pos as int] == inventory_view(out@[pos as int]));
            pos = pos + 1;
        }
        proof {
            if pos < out.len() {
                assert(ov[pos as int] == inventory_view(out@[pos as int]));
            }
            order::lemma_insert_sorted(ov, pos as int, xv, le);
            order::lemma_insert_multiset(ov, pos as int, xv);
        }
        out.insert(pos, x);
        assert(inventory_list_view(out@) =~= ov.insert(pos as int, xv));
    }
    assert(inventory_list_view(src@) =~= Seq::empty());
    proof {
        inventory_list_view(src@).to_multiset_ensures();
        vstd::multiset::lemma_multiset_empty_len(inventory_list_view(src@).to_multiset());
    }
    assert(inventory_list_view(out@).to_multiset() =~= all.to_multiset());
    out
}


/// The health score is 0 when no quad is loaded and lies between 10 and
/// 100 otherwise; more cycles of either kind never raise it.
pub proof fn law_health_score_bounds(
    internal: usize,
    cross: usize,
    more_internal: usize,
    more_cross: usize,
    total_quads: u64,
)
    requires
        internal <= more_internal,
        cross <= more_cross,
        more_internal <= u32::MAX,
        more_cross <= u32::MAX,
    ensures
        total_quads == 0 ==> health_score_spec(internal, cross, total_quads) == 0,
        total_quads > 0 ==> 10 <= health_score_spec(internal, cross, total_quads) <= 100,
        health_score_spec(more_internal, more_cross, total_quads) <= health_score_spec(
            internal,
            cross,
            total_quads,
        ),
{
    assert((internal as u32) as nat == internal as nat);
    assert((cross as u32) as nat == cross as nat);
    assert((more_internal as u32) as nat == more_internal as nat);
    assert((more_cross as u32) as nat == more_cross as nat);
    assert(internal * 20 <= more_internal * 20) by (nonlinear_arith)
        requires
            internal <= more_internal,
    ;
    assert(cross * 25 <= more_cross * 25) by (nonlinear_arith)
        requires
            cross <= more_cross,
    ;
}

/// Sum of the counts of a list of graph layers.
pub open spec fn layer_quads_sum(gs: Seq<(Seq<char>, Seq<char>, nat)>) -> nat
    decreases gs.len(),
{
    if gs.len() == 0 {
        0
    } else {
        layer_quads_sum(gs.drop_last()) + gs.last().2
    }
}

/// The total of a layer tally is the sum of the counts of the layers it
/// lists, and every listed layer has a positive count.
pub proof fn law_layer_total_is_sum(rows: Seq<Vec<String>>, iris: LayerIris)
    ensures
        layers_spec(rows, iris).1 == layer_quads_sum(layers_spec(rows, iris).0),
        forall|i: int|
            0 <= i < layers_spec(rows, iris).0.len() ==> (#[trigger] layers_spec(rows, iris).0[i]).2 > 0,
    decreases rows.len(),
{
    if rows.len() > 0 {
        law_layer_total_is_sum(rows.drop_last(), iris);
        let p = layers_spec(rows.drop_last(), iris);
        let r = layers_spec(rows, iris);
        if layer_count(rows.last()@) > 0 {
            assert(r.0.drop_last() =~= p.0);
            assert forall|i: int| 0 <= i < r.0.len() implies (#[trigger] r.0[i]).2 > 0 by {
                if i < p.0.len() {
                    assert(r.0[i] == p.0[i]);
                }
            }
        }
    }
}


/// Badge shown beside a health score: green from 90, yellow from 70, red
/// below.
pub fn score_badge(score: u32) -> (r: &'static str)
    ensures
        r@ == if score >= 90 {
            "🟢"@
        } else if score >= 70 {
            "🟡"@
        } else {
            "🔴"@
        },
{
    if score >= 90 {
        "🟢"
    } else if score >= 70 {
        "🟡"
    } else {
        "🔴"
    }
}

/// Length of a module's density bar: its share of the top module's function
/// count, in fifteenths, at least one.
pub fn density_bar_len(function_count: usize, top_count: usize) -> (r: usize)
    requires
        function_count * 15 <= usize::MAX,
    ensures
        r == if (function_count * 15) / (if top_count >= 1 { top_count as int } else { 1 }) >= 1 {
            (function_count * 15) / (if top_count >= 1 { top_count as int } else { 1 })
        } else {
            1
        },
{
    let max_fn = if top_count >= 1 { top_count } else { 1 };
    let len = (function_count * 15) / max_fn;
    if len >= 1 { len } else { 1 }
}

/// The upstream repository shown for an external package: the GitHub
/// repository of the first declared dependency of that name that has one
/// named, else `crates.io`.
pub open spec fn upstream_spec(name: Seq<char>, declared: Seq<DeclaredDep>) -> Seq<char> {
    let p = |d: DeclaredDep| d.package_name@ == name;
    if text::any_where(declared, p) {
        match declared[text::first_where(declared, p)].github_repo {
            Some(g) => g@,
            None => "crates.io"@,
        }
    } else {
        "crates.io"@
    }
}

/// The upstream repository of an external package.
pub fn upstream_for(name: &str, declared: &Vec<DeclaredDep>) -> (r: String)
    ensures
        r@ == upstream_spec(name@, declared@),
{
    let ghost p = |d: DeclaredDep| d.package_name@ == name@;
    let mut i: usize = 0;
    while i < declared.len()
        invariant
            i <= declared@.len(),
            p == (|d: DeclaredDep| d.package_name@ == name@),
            forall|j: int| 0 <= j < i ==> !p(#[trigger] declared@[j]),
        decreases declared.len() - i,
    {
        if text::str_eq(declared[i].package_name.as_str(), name) {
            proof {
                assert(p(declared@[i as int]));
                assert(text::is_first_where(declared@, p, i as int));
                text::lemma_first_where(declared@, p, i as int);
            }
            return match &declared[i].github_repo {
                Some(g) => g.clone(),
                None => "crates.io".to_owned(),
            };
        }
        i = i + 1;
    }
    "crates.io".to_owned()
}

/// The total of the layer counts of the rows, or `None` when it does not
/// fit in a `u64`.
pub fn checked_layers_total(rows: &Vec<Vec<String>>) -> (r: Option<u64>)
    ensures
        match r {
            Some(t) => t == layers_total(rows@),
            None => layers_total(rows@) > u64::MAX,
        },
{
    let mut total: u64 = 0;
    let mut i: usize = 0;
    assert(rows@.take(0) =~= Seq::<Vec<String>>::empty());
    while i < rows.len()
        invariant
            i <= rows@.len(),
            total == layers_total(rows@.take(i as int)),
        decreases rows.len() - i,
    {
        proof {
            assert(rows@.take(i + 1).drop_last() =~= rows@.take(i as int));
            assert(rows@.take(i + 1).last() == rows@[i as int]);
        }
        let row = &rows[i];
        let c: u64 = if row.len() >= 2 {
            cell_u64_exec(row, 1)
        } else {
            0
        };
        match total.checked_add(c) {
            Some(t) => {
                total = t;
            },
            None => {
                proof {
                    lemma_layers_total_prefix(rows@, i + 1);
                }
                return None;
            },
        }
        i = i + 1;
    }
    assert(rows@.take(rows@.len() as int) =~= rows@);
    Some(total)
}

/// The layer tally of the rows, or `None` when their counts do not add up
/// within a `u64`.
pub fn tally_layers_checked(rows: &Vec<Vec<String>>, ast: &str, lsp: &str, dep: &str, repolex: &str) -> (r:
    Option<LayerTally>)
    ensures
        r is None <==> layers_total(rows@) > u64::MAX,
        r matches Some(t) ==> tally_view(t) == layers_spec(rows@, (ast@, lsp@, dep@, repolex@)),
{
    match checked_layers_total(rows) {
        None => None,
        Some(_) => Some(tally_layers(rows, ast, lsp, dep, repolex)),
    }
}

/// Number of bytes of the short form of a commit: eight, or all of them
/// when the commit is shorter.
pub open spec fn short_sha_len(commit: Seq<char>) -> int {
    let n = vstd::utf8::encode_utf8(commit).len() as int;
    if n < 8 {
        n
    } else {
        8
    }
}

/// The short form of a commit: the text of its first eight bytes, or all of
/// it when shorter.
pub open spec fn short_sha_spec(commit: Seq<char>) -> Seq<char> {
    vstd::utf8::decode_utf8(vstd::utf8::encode_utf8(commit).take(short_sha_len(commit)))
}

/// The short form of a commit, as [`short_sha_spec`] says: its UTF-8 bytes
/// are the commit's first eight (slicing inside a character panics, so such
/// commits are left out).
pub fn short_sha(commit: &str) -> (r: String)
    requires
        vstd::utf8::is_char_boundary(vstd::utf8::encode_utf8(commit@), short_sha_len(commit@)),
    ensures
        r@ == short_sha_spec(commit@),
        vstd::utf8::encode_utf8(r@) == vstd::utf8::encode_utf8(commit@).take(short_sha_len(commit@)),
{
    let n: usize = if commit.as_bytes().len() < 8 {
        commit.as_bytes().len()
    } else {
        8
    };
    let (head, _tail) = commit.split_at(n);
    proof {
        vstd::utf8::encode_utf8_decode_utf8(head@);
        assert(head.spec_bytes() =~= vstd::utf8::encode_utf8(commit@).take(short_sha_len(commit@)));
    }
    head.to_owned()
}

/// Which follow-up queries a repository audit runs, by the layers loaded:
/// code metrics and top modules with a syntax-tree layer, external calls and
/// cycles with a language-server layer, declared dependencies with a
/// dependency layer.
#[derive(Debug, Clone, Copy, PartialEq, Eq)]
pub struct AuditPlan {
    pub code_metrics: bool,
    pub external_calls: bool,
    pub declared_deps: bool,
    pub cycles: bool,
}

/// The follow-up queries of an audit for a layer tally.
pub fn plan_audit(t: &LayerTally) -> (r: AuditPlan)
    ensures
        r.code_metrics == (t.ast_quads > 0),
        r.external_calls == (t.lsp_quads > 0),
        r.declared_deps == (t.dep_quads > 0),
        r.cycles == (t.lsp_quads > 0),
{
    AuditPlan {
        code_metrics: t.ast_quads > 0,
        external_calls: t.lsp_quads > 0,
        declared_deps: t.dep_quads > 0,
        cycles: t.lsp_quads > 0,
    }
}

/// A step of a repository audit: the query it runs next, or the end.
#[derive(Debug, Clone, Copy, PartialEq, Eq)]
pub enum AuditStep {
    /// Counts of the graph layers.
    Layers,
    /// Number of source files.
    Files,
    /// Counts of syntax items by kind.
    Items,
    /// Modules with the most functions.
    TopModules,
    /// External calls per package.
    ExternalCalls,
    /// Declared dependencies.
    DeclaredDeps,
    /// Internal cycles.
    InternalCycles,
    /// Whether the `i`-th external package calls back into the repository.
    ReverseCalls(usize),
    /// No query is left.
    Finish,
}

/// Position of a step in an audit with `deps` external packages.
pub open spec fn step_rank(s: AuditStep, deps: nat) -> int {
    match s {
        AuditStep::Layers => 0int,
        AuditStep::Files => 1int,
        AuditStep::Items => 2int,
        AuditStep::TopModules => 3int,
        AuditStep::ExternalCalls => 4int,
        AuditStep::DeclaredDeps => 5int,
        AuditStep::InternalCycles => 6int,
        AuditStep::ReverseCalls(i) => 7 + i as int,
        AuditStep::Finish => 7 + deps as int,
    }
}

/// Whether an audit with this plan and `deps` external packages runs a
/// step: the layer count always, the code queries with a syntax-tree layer,
/// external calls with a language-server layer, declared dependencies with a
/// dependency layer, the cycle queries (one per external package) with a
/// language-server layer.
pub open spec fn step_wanted(s: AuditStep, plan: AuditPlan, deps: nat) -> bool {
    match s {
        AuditStep::Layers => true,
        AuditStep::Files => plan.code_metrics,
        AuditStep::Items => plan.code_metrics,
        AuditStep::TopModules => plan.code_metrics,
        AuditStep::ExternalCalls => plan.external_calls,
        AuditStep::DeclaredDeps => plan.declared_deps,
        AuditStep::InternalCycles => plan.cycles,
        AuditStep::ReverseCalls(i) => plan.cycles && i < deps,
        AuditStep::Finish => false,
    }
}

/// The step after `done`: the wanted step that comes first after it, or
/// `Finish` when none is left.
pub fn next_audit_step(done: AuditStep, plan: AuditPlan, deps: usize) -> (r: AuditStep)
    requires
        done matches AuditStep::ReverseCalls(i) ==> i < deps,
        deps + 8 <= usize::MAX,
    ensures
        r == AuditStep::Finish || (step_wanted(r, plan, deps as nat) && step_rank(done, deps as nat)
            < step_rank(r, deps as nat)),
        forall|s: AuditStep|
            step_wanted(s, plan, deps as nat) && step_rank(done, deps as nat) < #[trigger] step_rank(
                s,
                deps as nat,
            ) ==> step_rank(r, deps as nat) <= step_rank(s, deps as nat),
        r == AuditStep::Finish ==> forall|s: AuditStep|
            step_wanted(s, plan, deps as nat) ==> #[trigger] step_rank(s, deps as nat) <= step_rank(
                done,
                deps as nat,
            ),
{
    let from: usize = match done {
        AuditStep::Layers => 1,
        AuditStep::Files => 2,
        AuditStep::Items => 3,
        AuditStep::TopModules => 4,
        AuditStep::ExternalCalls => 5,
        AuditStep::DeclaredDeps => 6,
        AuditStep::InternalCycles => 7,
        AuditStep::ReverseCalls(i) => 8 + i,
        AuditStep::Finish => 8 + deps,
    };
    assert(from == step_rank(done, deps as nat) + 1);
    if from <= 1 && plan.code_metrics {
        AuditStep::Files
    } else if from <= 2 && plan.code_metrics {
        AuditStep::Items
    } else if from <= 3 && plan.code_metrics {
        AuditStep::TopModules
    } else if from <= 4 && plan.external_calls {
        AuditStep::ExternalCalls
    } else if from <= 5 && plan.declared_deps {
        AuditStep::DeclaredDeps
    } else if from <= 6 && plan.cycles {
        AuditStep::InternalCycles
    } else if plan.cycles && deps > 0 && from < 7 + deps {
        let i: usize = if from <= 7 {
            0
        } else {
            from - 7
        };
        AuditStep::ReverseCalls(i)
    } else {
        AuditStep::Finish
    }
}

/// The smaller of two numbers.
pub open spec fn min_nat(a: nat, b: nat) -> nat {
    if a <= b {
        a
    } else {
        b
    }
}

/// With quads loaded, the health score is 100 less 20 points per internal
/// cycle (at most 40) and, separately and whatever the internal count, 25
/// points per cross-package cycle (at most 50): one cross-package cycle
/// alone gives 75, one internal cycle alone gives 80.
pub proof fn law_health_score_penalties(internal: usize, cross: usize, total_quads: u64)
    requires
        total_quads > 0,
        internal <= u32::MAX,
        cross <= u32::MAX,
    ensures
        health_score_spec(internal, cross, total_quads) == 100 - min_nat(20 * internal as nat, 40)
            - min_nat(25 * cross as nat, 50),
        internal == 0 && cross >= 1 ==> health_score_spec(internal, cross, total_quads) == 100
            - min_nat(25 * cross as nat, 50),
        internal == 0 && cross == 1 ==> health_score_spec(internal, cross, total_quads) == 75,
        internal == 1 && cross == 0 ==> health_score_spec(internal, cross, total_quads) == 80,
{
    assert((internal as u32) as nat == internal as nat);
    assert((cross as u32) as nat == cross as nat);
}

} // verus!
