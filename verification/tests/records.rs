use rlex::audit::{
    cross_cycle_detail, cycle_audit, declared_dep_from_row, external_from_row, files_count_from_rows,
    format_number, health_score, internal_cycle_detail, inventory_commit, module_from_row, overall_status,
    record_item_count, sort_graph_layers, sort_inventory, tally_layers, CodeMetrics, RepoGraphInfo,
};
use rlex::catalog::{build_catalog, catalog_repo};
use rlex::download::{commit_cache_dir, download_base, file_url, is_parsed, select_commit, sort_cached, CachedCommit, CachedRepo};
use rlex::index::{find_commit_by_tag, sort_repo_names, GraphFile, RepoManifest, TrackedCommit};
use rlex::config::Config;
use rlex::numbers::{parse_u64, parse_usize};
use rlex::repos::{
    commits_with_state, count_parsed, graph_files_total, graph_types_joined, is_parsed_status, parse_repo,
    repo_summary, search_repos, sort_by_parse_time,
};
use rlex::warmup::{mode_label, warmed_graph, warmup_count_query};
use rlex::registry::resolve_repo;

fn s(x: &str) -> String {
    x.to_string()
}

fn commit(sha: &str, status: &str, tag: Option<&str>, at: Option<&str>) -> TrackedCommit {
    TrackedCommit {
        id: format!("id-{}", sha),
        hexsha: s(sha),
        parse_status: s(status),
        tag_name: tag.map(s),
        parsed_at: at.map(s),
    }
}

fn manifest() -> RepoManifest {
    RepoManifest {
        id: s("m"),
        name: s("syn"),
        owner: s("dtolnay"),
        tracked_commits: vec![
            commit("aaaa1111", "pending", Some("v1"), None),
            commit("bbbb2222", "parsed", Some("v2"), Some("2024-02")),
            commit("cccc3333", "parsed", Some("v2"), Some("2024-01")),
        ],
    }
}

#[test]
fn commits_are_found_by_tag_or_sha() {
    let m = manifest();
    assert_eq!(find_commit_by_tag(&m, "v2").unwrap().hexsha, "bbbb2222");
    assert!(find_commit_by_tag(&m, "v9").is_none());
    assert_eq!(select_commit(&m, "cccc").unwrap().hexsha, "cccc3333");
    assert_eq!(select_commit(&m, "v1").unwrap().hexsha, "aaaa1111");
    assert!(select_commit(&m, "zz").is_none());
    assert!(is_parsed(&m.tracked_commits[1]));
    assert!(!is_parsed(&m.tracked_commits[0]));
    let c = m.tracked_commits[2].clone();
    assert_eq!(c.parsed_at.as_deref(), Some("2024-01"));
}

#[test]
fn download_addresses() {
    assert_eq!(download_base("dtolnay", "syn"), "https://github.com/repolex-forx/dtolnay--syn/raw/main");
    assert_eq!(file_url("https://x/raw/main", "ast/a.nq.gz"), "https://x/raw/main/ast/a.nq.gz");
    let c = Config::with_root("/r");
    assert_eq!(commit_cache_dir(&c, "o", "r", "abc"), "/r/cache/o/r/abc");
}

#[test]
fn listings_are_sorted() {
    let names = vec![(s("b"), s("x")), (s("a"), s("z")), (s("a"), s("y"))];
    assert_eq!(sort_repo_names(&names), vec![(s("a"), s("y")), (s("a"), s("z")), (s("b"), s("x"))]);
    let repo = |o: &str, r: &str| CachedRepo {
        org: s(o),
        repo: s(r),
        commits: vec![CachedCommit { hexsha: s("abc"), file_count: 1, total_size: 2 }],
    };
    let sorted = sort_cached(vec![repo("rust-lang", "regex"), repo("dtolnay", "syn"), repo("a-b", "x")]);
    let keys: Vec<String> = sorted.iter().map(|c| format!("{}/{}", c.org, c.repo)).collect();
    assert_eq!(keys, vec![s("a-b/x"), s("dtolnay/syn"), s("rust-lang/regex")]);
}

#[test]
fn catalog_entries() {
    let m = manifest();
    let files = vec![
        None,
        Some(vec![GraphFile { graph_type: s("ast"), graph_file_path: s("ast/a.nq.gz"), graph_file_size: 10 }]),
        None,
    ];
    let r = catalog_repo("dtolnay", "syn", &m, &vec![false, true, false], &files);
    assert_eq!(r.parsed_count, 2);
    assert_eq!(r.pending_count, 1);
    assert_eq!(r.commits.len(), 3);
    assert!(r.commits[1].cached);
    assert_eq!(r.commits[1].graph_files.as_ref().unwrap()[0].size_bytes, 10);
    assert!(r.commits[0].graph_files.is_none());
    let c = build_catalog(vec![r]);
    assert_eq!(c.version, 1);
    assert_eq!(c.repo_count, 1);
}

#[test]
fn repository_browsing() {
    assert_eq!(parse_repo("dtolnay/syn"), Ok((s("dtolnay"), s("syn"))));
    assert_eq!(parse_repo("a/b/c"), Ok((s("a"), s("b/c"))));
    assert_eq!(parse_repo("syn"), Err(s("Expected org/repo format, got 'syn'")));
    assert!(is_parsed_status("ast_complete"));
    assert!(!is_parsed_status("pending"));
    let m = manifest();
    assert_eq!(count_parsed(&m.tracked_commits), 2);
    let parsed = commits_with_state(&m.tracked_commits, true);
    let by_time = sort_by_parse_time(&parsed);
    assert_eq!(by_time[0].hexsha, "cccc3333");
    assert_eq!(commits_with_state(&m.tracked_commits, false)[0].hexsha, "aaaa1111");
    let all = vec![(s("dtolnay"), s("syn")), (s("rust-lang"), s("regex")), (s("BurntSushi"), s("memchr"))];
    assert_eq!(search_repos(&all, "SYN"), vec![(s("dtolnay"), s("syn"))]);
    assert_eq!(search_repos(&all, "g/r").len(), 1);
    assert_eq!(repo_summary(2, 3, true), "  (2/3 parsed) [cached]");
    assert_eq!(repo_summary(0, 0, false), "  (0/0 parsed)");
    let gfs = vec![
        GraphFile { graph_type: s("ast"), graph_file_path: s("a"), graph_file_size: 1_048_576 },
        GraphFile { graph_type: s("lsp"), graph_file_path: s("b"), graph_file_size: 5 },
    ];
    assert_eq!(graph_files_total(&gfs), 1_048_581);
    assert_eq!(graph_types_joined(&gfs), "ast, lsp");
}

#[test]
fn numbers_parse_like_str_parse() {
    assert_eq!(parse_u64("42"), Some(42));
    assert_eq!(parse_u64("+7"), Some(7));
    assert_eq!(parse_u64(""), None);
    assert_eq!(parse_u64("-1"), None);
    assert_eq!(parse_u64("18446744073709551616"), None);
    assert_eq!(parse_usize("12x"), None);
}

#[test]
fn warmup_records() {
    let r = resolve_repo("memchr", None).unwrap();
    assert_eq!(
        warmup_count_query(&r),
        "SELECT (COUNT(?s) AS ?cnt) WHERE { GRAPH <https://repolex.ai/r/BurntSushi/memchr/lsp/886ca4ca4820297191c6e9f7b023dc356f31a4d1> { ?s ?p ?o } }"
    );
    let w = warmed_graph(&r, &vec![vec![s("17")]]).unwrap();
    assert_eq!(w.repo, "BurntSushi/memchr");
    assert_eq!(w.quads_touched, 17);
    assert!(warmed_graph(&r, &vec![vec![s("0")]]).is_none());
    assert!(warmed_graph(&r, &vec![]).is_none());
    assert_eq!(mode_label(true), "Remote HTTP (:7878)");
}

#[test]
fn layer_tally_and_health() {
    let rows = vec![
        vec![s("LSP"), s("30")],
        vec![s("AST"), s("100")],
        vec![s("DEP"), s("0")],
        vec![s("REPOLEX"), s("5")],
        vec![s("OTHER")],
    ];
    let t = tally_layers(&rows, "ast-iri", "lsp-iri", "dep-iri", "rx-iri");
    assert_eq!(t.total_quads, 135);
    assert_eq!(t.ast_quads, 100);
    assert_eq!(t.lsp_quads, 30);
    assert_eq!(t.dep_quads, 0);
    assert_eq!(t.graphs.len(), 3);
    let sorted = sort_graph_layers(&t.graphs);
    let order: Vec<&str> = sorted.iter().map(|g: &RepoGraphInfo| g.graph_type.as_str()).collect();
    assert_eq!(order, vec!["AST", "LSP", "REPOLEX"]);
    assert_eq!(sorted[0].iri, "ast-iri");
    assert_eq!(health_score(0, 0, 10), 100);
    assert_eq!(health_score(1, 0, 10), 80);
    assert_eq!(health_score(5, 1, 10), 35);
    assert_eq!(health_score(5, 5, 10), 10);
    assert_eq!(health_score(0, 0, 0), 0);
    assert_eq!(overall_status(0, 0, true), "UNINDEXED (Zero quads found in local store)");
    assert_eq!(overall_status(10, 100, true), "OPTIMAL (100% Clean DAG Architecture)");
    assert_eq!(overall_status(10, 90, true), "HEALTHY (Clean DAG with minor warnings)");
    assert_eq!(overall_status(10, 80, false), "ACTION REQUIRED (Circular dependencies detected)");
    assert_eq!(format_number(1234567), "1,234,567");
}

#[test]
fn audit_rows() {
    let mut m = CodeMetrics::default();
    record_item_count(&mut m, "https://x/rust/function_item", 9);
    record_item_count(&mut m, "https://x/rust/macro_invocation", 4);
    record_item_count(&mut m, "https://x/rust/other", 1);
    assert_eq!((m.functions_count, m.macros_count, m.structs_count), (9, 4, 0));
    let d = declared_dep_from_row(&vec![s("serde"), s(""), s("serde-rs"), s("serde")]).unwrap();
    assert_eq!(d.version, None);
    assert_eq!(d.github_repo.as_deref(), Some("serde-rs/serde"));
    assert!(declared_dep_from_row(&vec![]).is_none());
    assert_eq!(module_from_row(&vec![s("src/lib.rs"), s("12")]).unwrap().function_count, 12);
    assert!(module_from_row(&vec![s("x")]).is_none());
    assert_eq!(external_from_row(&vec![s("libc"), s("bad")]).unwrap().call_count, 0);
    assert_eq!(files_count_from_rows(&vec![vec![s("77")]]), 77);
    assert_eq!(files_count_from_rows(&vec![]), 0);
    assert_eq!(
        internal_cycle_detail(&vec![s("a.rs"), s("b.rs")]).unwrap(),
        "Internal mutual recursion between a.rs and b.rs"
    );
    assert_eq!(cross_cycle_detail("syn", "quote"), "Cross-package mutual cycle between syn and quote");
    let ca = cycle_audit(0, 1, vec![s("x")]);
    assert!(!ca.is_clean_dag);
    assert!(cycle_audit(0, 0, vec![]).is_clean_dag);
}

#[test]
fn store_inventory() {
    let entries = vec![(s("short"), true), (s("0123456789"), false), (s("abcdef0123"), true)];
    assert_eq!(inventory_commit(&entries), Some(2));
    assert_eq!(inventory_commit(&vec![(s("é1234"), true)]), None);
    let inv = sort_inventory(vec![(s("b/x"), s("1"), 3), (s("a/y"), s("2"), 4)]);
    assert_eq!(inv[0].0, "a/y");
    assert_eq!(inv[1].2, 3);
}
