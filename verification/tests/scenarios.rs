use rlex::calls::{normalize_name, select_or_build_query};
use rlex::equivalence::{canonicalize_call_target, generate_file_bridge_bind, parse_call_target};
use rlex::registry::resolve_repo;
use rlex::scan_guard::{lint_query, HazardKind};

#[test]
fn test_normalize_name() {
    assert_eq!(normalize_name("tokio-rs/axum"), "axum");
    assert_eq!(normalize_name("dtolnay/syn-rs"), "syn");
    assert_eq!(normalize_name("rust-lang/git2-rs"), "git2");
}

#[test]
fn test_select_or_build_query_1hop_filter() {
    let (q, chain, hops) = select_or_build_query("axum", "syn", None).expect("must build query");
    assert_eq!(hops, 1);
    assert_eq!(chain, vec!["axum", "syn"]);
    assert!(q.contains(r#"FILTER(LCASE(STR(?pkg)) = "syn""#));
    assert!(!q.contains(r#"CONTAINS(LCASE(STR(?pkg)), "syn")"#));
}

#[test]
fn test_select_or_build_query_multihop_bridging() {
    let (q, chain, hops) = select_or_build_query("axum", "proc-macro2", None).expect("must build query");
    assert_eq!(hops, 3);
    assert_eq!(chain, vec!["axum", "syn", "quote", "proc-macro2"]);
    assert!(q.contains("BIND(REPLACE(REPLACE(STR(?synTarget)"));
    assert!(q.contains("BIND(REPLACE(REPLACE(STR(?quoteTarget)"));
    assert!(q.contains("lx:resolutionSourceFile ?synFile"));
    assert!(q.contains("lx:resolutionSourceFile ?quoteFile"));
}

#[test]
fn test_parse_call_target() {
    let iri = "https://repolex.ai/r/dtolnay/syn/commit/0e4bc64fe1e07a574b6f3133927a27991fd40c2e/src/punctuated.rs#identifier_71_11_71_14";
    let parsed = parse_call_target(iri).expect("must parse");
    assert_eq!(parsed.org, "dtolnay");
    assert_eq!(parsed.repo, "syn");
    assert_eq!(parsed.commit_sha, "0e4bc64fe1e07a574b6f3133927a27991fd40c2e");
    assert_eq!(parsed.rel_path, "src/punctuated.rs");
    assert_eq!(parsed.fragment.as_deref(), Some("identifier_71_11_71_14"));
}

#[test]
fn test_canonicalize_syn() {
    let lockfile_iri = "https://repolex.ai/r/dtolnay/syn/commit/0e4bc64fe1e07a574b6f3133927a27991fd40c2e/src/punctuated.rs#identifier_71_11_71_14";
    let (canonical, original_sha) = canonicalize_call_target(lockfile_iri);
    assert_eq!(original_sha.as_deref(), Some("0e4bc64fe1e07a574b6f3133927a27991fd40c2e"));
    assert_eq!(
        canonical,
        "https://repolex.ai/r/dtolnay/syn/commit/7bcb37cdb3399977658c8b52d2441d37e42e48f2/src/punctuated.rs#identifier_71_11_71_14"
    );

    let compact_iri = "r:dtolnay/syn/commit/0e4bc64fe1e07a574b6f3133927a27991fd40c2e/src/punctuated.rs#identifier_71_11_71_14";
    let (canonical_compact, original_compact_sha) = canonicalize_call_target(compact_iri);
    assert_eq!(original_compact_sha.as_deref(), Some("0e4bc64fe1e07a574b6f3133927a27991fd40c2e"));
    assert_eq!(
        canonical_compact,
        "r:dtolnay/syn/commit/7bcb37cdb3399977658c8b52d2441d37e42e48f2/src/punctuated.rs#identifier_71_11_71_14"
    );
}

#[test]
fn test_canonicalize_regex() {
    let lockfile_iri = "https://repolex.ai/r/rust-lang/regex/commit/2b527599eb9eea0dcc288c704584f242f26a5c61/src/regex/string.rs#identifier_228";
    let (canonical, original_sha) = canonicalize_call_target(lockfile_iri);
    assert_eq!(original_sha.as_deref(), Some("2b527599eb9eea0dcc288c704584f242f26a5c61"));
    assert_eq!(
        canonical,
        "https://repolex.ai/r/rust-lang/regex/commit/25a15e272b3ae5aee76b525902c2ab91b0d9e12e/src/regex/string.rs#identifier_228"
    );
}

#[test]
fn test_file_bridge_bind() {
    let snippet = generate_file_bridge_bind("?target", "?file");
    assert!(snippet.contains("REPLACE"));
    assert!(snippet.contains("?target"));
    assert!(snippet.contains("?file"));
}

#[test]
fn test_resolve_exact_backbone() {
    let repo = resolve_repo("regex", None).expect("regex should resolve");
    assert_eq!(repo.org, "rust-lang");
    assert_eq!(repo.repo, "regex");
    assert_eq!(repo.commit, "25a15e272b3ae5aee76b525902c2ab91b0d9e12e");
    assert!(repo.lsp_graph().contains("rust-lang/regex/lsp/"));
}

#[test]
fn test_resolve_with_owner() {
    let repo = resolve_repo("dtolnay/syn", None).expect("dtolnay/syn should resolve");
    assert_eq!(repo.org, "dtolnay");
    assert_eq!(repo.repo, "syn");
}

#[test]
fn test_catches_unanchored_contains() {
    let q = "SELECT * WHERE { ?s ?p ?o . FILTER(CONTAINS(STR(?s), \"regex\")) }";
    let hazards = lint_query(q);
    assert!(!hazards.is_empty());
    assert!(hazards.iter().any(|h| matches!(h.kind, HazardKind::UnanchoredStringFilter)));
}

#[test]
fn test_catches_unbounded_wildcard() {
    let q = "SELECT * WHERE { ?s ?p ?o . }";
    let hazards = lint_query(q);
    assert!(!hazards.is_empty());
    assert!(hazards.iter().any(|h| matches!(h.kind, HazardKind::UnboundedWildcardScan)));
}

#[test]
fn test_allows_anchored_graph() {
    let q = "SELECT * WHERE { GRAPH <https://repolex.ai/r/dtolnay/syn/lsp/123> { ?s ?p ?o } }";
    let hazards = lint_query(q);
    assert!(hazards.is_empty());
}
