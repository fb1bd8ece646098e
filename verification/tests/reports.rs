use rlex::equivalence::{canonicalize_call_target, parse_call_target};
use rlex::audit::{density_bar_len, score_badge, upstream_for, DeclaredDep};
use rlex::diamond::{package_count_query, pkg_counts_from_rows};
use rlex::query::table_lines;
use rlex::registry::RepoRef;
use rlex::serve::iso8601_utc;

fn s(x: &str) -> String {
    x.to_string()
}

fn row(cells: &[&str]) -> Vec<String> {
    cells.iter().map(|c| c.to_string()).collect()
}

#[test]
fn iso8601_epoch_and_known_instants() {
    assert_eq!(iso8601_utc(0), "1970-01-01T00:00:00Z");
    assert_eq!(iso8601_utc(86_399), "1970-01-01T23:59:59Z");
    assert_eq!(iso8601_utc(951_782_400), "2000-02-29T00:00:00Z");
    assert_eq!(iso8601_utc(1_700_000_000), "2023-11-14T22:13:20Z");
    assert_eq!(iso8601_utc(4_102_444_799), "2099-12-31T23:59:59Z");
}

#[test]
fn iso8601_year_wider_than_four_digits() {
    assert_eq!(iso8601_utc(253_402_300_799), "9999-12-31T23:59:59Z");
    assert_eq!(iso8601_utc(253_402_300_800), "10000-01-01T00:00:00Z");
}

#[test]
fn table_without_rows_says_so() {
    let lines = table_lines(&vec![s("a")], &vec![]);
    assert_eq!(lines, vec![s("(no results)")]);
}

#[test]
fn table_pads_columns_to_widest_cell() {
    let headers = vec![s("name"), s("n")];
    let rows = vec![row(&["serde", "12"]), row(&["x", "3"])];
    let lines = table_lines(&headers, &rows);
    assert_eq!(
        lines,
        vec![s("name   n "), s("-----  --"), s("serde  12"), s("x      3 ")]
    );
}

#[test]
fn table_cuts_long_cells() {
    let long = "a".repeat(90);
    let headers = vec![s("v")];
    let rows = vec![vec![long]];
    let lines = table_lines(&headers, &rows);
    let cut = format!("{}...", "a".repeat(77));
    assert_eq!(lines[0], format!("v{}", " ".repeat(79)));
    assert_eq!(lines[1], "-".repeat(80));
    assert_eq!(lines[2], cut);
}

#[test]
fn package_counts_keep_last_row_per_package() {
    let rows = vec![row(&["serde", "3"]), row(&["tokio", "2"]), row(&["serde", "4"])];
    let counts = pkg_counts_from_rows(&rows);
    let serde = counts.iter().find(|(p, _)| p == "serde").map(|(_, n)| *n);
    let tokio = counts.iter().find(|(p, _)| p == "tokio").map(|(_, n)| *n);
    assert_eq!(serde, Some(4));
    assert_eq!(tokio, Some(2));
    assert_eq!(counts.len(), 2);
}

#[test]
fn package_count_query_names_the_graph() {
    let q = package_count_query("https://repolex.ai/r/o/r/lsp/abc");
    assert!(q.contains("GRAPH <https://repolex.ai/r/o/r/lsp/abc> {"));
    assert!(q.contains("GROUP BY ?targetPkg"));
}

#[test]
fn score_badges_by_band() {
    assert_eq!(score_badge(100), "🟢");
    assert_eq!(score_badge(90), "🟢");
    assert_eq!(score_badge(89), "🟡");
    assert_eq!(score_badge(70), "🟡");
    assert_eq!(score_badge(69), "🔴");
    assert_eq!(score_badge(0), "🔴");
}

#[test]
fn density_bar_scales_to_top_module() {
    assert_eq!(density_bar_len(10, 10), 15);
    assert_eq!(density_bar_len(5, 10), 7);
    assert_eq!(density_bar_len(0, 10), 1);
    assert_eq!(density_bar_len(4, 0), 60);
}

#[test]
fn upstream_is_declared_repo_or_crates_io() {
    let declared = vec![
        DeclaredDep { package_name: s("serde"), version: Some(s("1")), github_repo: Some(s("serde-rs/serde")) },
        DeclaredDep { package_name: s("libc"), version: None, github_repo: None },
    ];
    assert_eq!(upstream_for("serde", &declared), "serde-rs/serde");
    assert_eq!(upstream_for("libc", &declared), "crates.io");
    assert_eq!(upstream_for("tokio", &declared), "crates.io");
}

#[test]
fn repolex_graph_iri() {
    let r = RepoRef { org: s("o"), repo: s("r"), commit: s("c1") };
    assert_eq!(r.repolex_graph(), "https://repolex.ai/r/o/r/repolex/c1");
}

#[test]
fn canonical_call_target_parses_back() {
    let iri = "r:dtolnay/syn/commit/0e4bc64fe1e07a574b6f3133927a27991fd40c2e/src/lib.rs#ident_1";
    let (canonical, replaced) = canonicalize_call_target(iri);
    assert_eq!(replaced.as_deref(), Some("0e4bc64fe1e07a574b6f3133927a27991fd40c2e"));
    let parsed = parse_call_target(&canonical).expect("canonical IRI parses");
    assert_eq!(parsed.org, "dtolnay");
    assert_eq!(parsed.repo, "syn");
    assert_eq!(parsed.commit_sha, "7bcb37cdb3399977658c8b52d2441d37e42e48f2");
    assert_eq!(parsed.rel_path, "src/lib.rs");
    assert_eq!(parsed.fragment.as_deref(), Some("ident_1"));
}
