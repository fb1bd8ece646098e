use rlex::audit::{checked_layers_total, next_audit_step, plan_audit, short_sha, tally_layers_checked, AuditPlan, AuditStep};
use rlex::calls::{name_from_normalized, select_or_build_query};
use rlex::client::head_vars;
use rlex::equivalence::{canonical_sha_for, parse_call_target};
use rlex::query::{graph_format, parse_row_format, GraphFormat};
use rlex::registry::resolve_normalized;
use rlex::scan_guard::{anchors_upper_line, check_has_bound_graph, hazards_from_upper, lint_query, HazardKind};

fn s(x: &str) -> String {
    x.to_string()
}

fn row(cells: &[&str]) -> Vec<String> {
    cells.iter().map(|c| c.to_string()).collect()
}

#[test]
fn json_ld_is_a_graph_format() {
    assert_eq!(graph_format("json-ld"), GraphFormat::JsonLd);
    assert_eq!(graph_format("ntriples"), GraphFormat::NTriples);
    assert!(parse_row_format("json").is_ok());
}

#[test]
fn lint_query_analyses_any_text() {
    let q = "\u{390}\u{390} GRAPH <";
    assert!(lint_query(q).is_empty());
    assert!(!check_has_bound_graph(q));
}

#[test]
fn lint_query_orders_hazards() {
    let q = "SELECT * WHERE { ?s ?p ?o . FILTER(CONTAINS(?o, \"x\")) }";
    let kinds: Vec<HazardKind> = lint_query(q).iter().map(|h| h.kind).collect();
    assert_eq!(kinds, vec![HazardKind::UnanchoredStringFilter, HazardKind::UnboundedWildcardScan]);
    let anchored = "SELECT * WHERE {\n  graph <https://repolex.ai/r/a/b/lsp/c> { ?s ?p ?o . FILTER(REGEX(?o, \"x\")) }\n}";
    assert!(lint_query(anchored).is_empty());
}

#[test]
fn anchoring_lines() {
    assert!(anchors_upper_line("GRAPH <X> {"));
    assert!(anchors_upper_line("FROM NAMED <X>"));
    assert!(anchors_upper_line("SELECT * { GRAPH <X> {"));
    assert!(!anchors_upper_line("SELECT * { GRAPH <X"));
    assert!(!anchors_upper_line("SELECT ?G WHERE {"));
}

#[test]
fn hazards_from_upper_text() {
    let up = "SELECT * WHERE { FILTER(STRSTARTS(?X, \"A\")) }";
    let kinds: Vec<HazardKind> = hazards_from_upper(up, false, false).iter().map(|h| h.kind).collect();
    assert_eq!(kinds, vec![HazardKind::UnanchoredStringFilter]);
    assert!(hazards_from_upper(up, true, true).is_empty());
    let kinds: Vec<HazardKind> = hazards_from_upper("SELECT 1", false, true).iter().map(|h| h.kind).collect();
    assert_eq!(kinds, vec![HazardKind::UnboundedWildcardScan]);
}

#[test]
fn resolving_a_lowered_query() {
    let r = resolve_normalized("dtolnay/syn", None).expect("resolves");
    assert_eq!((r.org.as_str(), r.repo.as_str()), ("dtolnay", "syn"));
    assert_eq!(r.commit, "7bcb37cdb3399977658c8b52d2441d37e42e48f2");
    assert!(resolve_normalized("zzzz-not-a-repo", None).is_none());
}

#[test]
fn canonical_sha_of_lowered_package() {
    assert_eq!(
        canonical_sha_for("syn", "0e4bc64fe1e07a574b6f3133927a27991fd40c2e").as_deref(),
        Some("7bcb37cdb3399977658c8b52d2441d37e42e48f2")
    );
    assert_eq!(
        canonical_sha_for("regex", "ffff").as_deref(),
        Some("25a15e272b3ae5aee76b525902c2ab91b0d9e12e")
    );
}

#[test]
fn name_of_lowered_repository() {
    assert_eq!(name_from_normalized("tokio-rs/axum"), "axum");
    assert_eq!(name_from_normalized("rust-lang/git2-rs"), "git2");
}

#[test]
fn layer_totals_checked() {
    let rows = vec![row(&["AST", "10"]), row(&["LSP", "5"]), row(&["X"])];
    assert_eq!(checked_layers_total(&rows), Some(15));
    let big = vec![row(&["AST", "18446744073709551615"]), row(&["LSP", "1"])];
    assert_eq!(checked_layers_total(&big), None);
    assert!(tally_layers_checked(&big, "a", "l", "d", "r").is_none());
    let t = tally_layers_checked(&rows, "a", "l", "d", "r").expect("fits");
    assert_eq!(t.total_quads, 15);
    let plan = plan_audit(&t);
    assert!(plan.code_metrics && plan.external_calls && plan.cycles && !plan.declared_deps);
}

#[test]
fn short_commit() {
    assert_eq!(short_sha("7bcb37cdb3399977658c8b52d2441d37e42e48f2"), "7bcb37cd");
    assert_eq!(short_sha("abc"), "abc");
    assert_eq!(short_sha("ééééé"), "éééé");
    assert_eq!(short_sha("aaéééé"), "aaééé");
}

#[test]
fn sparql_json_head_variables() {
    assert_eq!(head_vars(Some(vec![Some(s("a")), None, Some(s("b"))])), vec![s("a"), s("b")]);
    assert!(head_vars(None).is_empty());
}

#[test]
fn call_target_prefixes_and_round_trip() {
    let tail = "dtolnay/syn/commit/abc/src/lib.rs#f";
    let a = parse_call_target(&format!("r:{}", tail)).expect("parses");
    let b = parse_call_target(&format!("https://repolex.ai/r/{}", tail)).expect("parses");
    assert_eq!(a, b);
    let iri = "  r:dtolnay/syn/commit/abc/src/lib.rs#f ";
    let p = parse_call_target(iri).expect("parses");
    let rebuilt = format!(
        "r:{}/{}/commit/{}/{}{}",
        p.org,
        p.repo,
        p.commit_sha,
        p.rel_path,
        p.fragment.as_deref().map(|f| format!("#{}", f)).unwrap_or_default()
    );
    assert_eq!(rebuilt, iri.trim());
}

fn walk(plan: AuditPlan, deps: usize) -> Vec<AuditStep> {
    let mut out = Vec::new();
    let mut step = AuditStep::Layers;
    loop {
        step = next_audit_step(step, plan, deps);
        if step == AuditStep::Finish {
            break;
        }
        out.push(step);
    }
    out
}

#[test]
fn audit_steps_follow_the_plan() {
    let all = AuditPlan { code_metrics: true, external_calls: true, declared_deps: true, cycles: true };
    assert_eq!(
        walk(all, 2),
        vec![
            AuditStep::Files,
            AuditStep::Items,
            AuditStep::TopModules,
            AuditStep::ExternalCalls,
            AuditStep::DeclaredDeps,
            AuditStep::InternalCycles,
            AuditStep::ReverseCalls(0),
            AuditStep::ReverseCalls(1),
        ]
    );
    let deps_only = AuditPlan { code_metrics: false, external_calls: false, declared_deps: true, cycles: false };
    assert_eq!(walk(deps_only, 3), vec![AuditStep::DeclaredDeps]);
    let none = AuditPlan { code_metrics: false, external_calls: false, declared_deps: false, cycles: false };
    assert!(walk(none, 0).is_empty());
}

#[test]
fn built_calls_queries_are_never_flagged() {
    let pairs = [
        ("rlex", "memchr"),
        ("actix", "memchr"),
        ("regex", "memchr"),
        ("rlex", "proc-macro2"),
        ("axum", "proc-macro2"),
        ("socket2", "libc"),
        ("git2", "libc"),
        ("flate2", "miniz_oxide"),
        ("flate2", "crc32fast"),
        ("axum", "syn"),
        ("quote", "anything"),
    ];
    for (from, to) in pairs {
        let (q, _, _) = select_or_build_query(from, to, None).expect("builds");
        assert!(check_has_bound_graph(&q), "{} -> {}", from, to);
        assert!(lint_query(&q).is_empty(), "{} -> {}", from, to);
    }
}

#[test]
fn canonicalizing_twice_changes_nothing() {
    use_canonicalize_twice("https://repolex.ai/r/dtolnay/syn/commit/0e4bc64fe1e07a574b6f3133927a27991fd40c2e/src/a.rs#x");
    use_canonicalize_twice("r:rust-lang/regex/commit/2b527599eb9eea0dcc288c704584f242f26a5c61/src/lib.rs");
    use_canonicalize_twice("r:BurntSushi/memchr/commit/0000/src/lib.rs");
    use_canonicalize_twice("r:tokio-rs/axum/commit/abc/src/lib.rs#f");
}

fn use_canonicalize_twice(iri: &str) {
    let (out, _) = rlex::equivalence::canonicalize_call_target(iri);
    let again = rlex::equivalence::canonicalize_call_target(&out);
    assert_eq!(again, (out.clone(), None), "{}", iri);
}

#[test]
fn backbone_repos_found_by_org_and_repo() {
    for b in rlex::registry::get_backbone() {
        let r = resolve_repo_by(&format!("{}/{}", b.org, b.repo)).expect("found");
        assert_eq!((r.org, r.repo, r.commit), (b.org.clone(), b.repo.clone(), b.commit.clone()));
    }
}

fn resolve_repo_by(q: &str) -> Option<rlex::registry::RepoRef> {
    rlex::registry::resolve_repo(q, None)
}

#[test]
fn bridged_routes_hold_bind_snippets() {
    use_bridge("axum");
    use_bridge("rlex");
}

fn use_bridge(from: &str) {
    let (q, _, _) = select_or_build_query(from, "proc-macro2", None).expect("builds");
    let syn = rlex::equivalence::generate_file_bridge_bind("?synTarget", "?synFile");
    let quote = rlex::equivalence::generate_file_bridge_bind("?quoteTarget", "?quoteFile");
    assert!(q.contains(&syn));
    assert!(q.contains(&quote));
}
