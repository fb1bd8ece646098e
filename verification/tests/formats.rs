use rlex::bench::{chrono_like_timestamp, eq_ignore_ascii_case, format_num, profiles, select_profiles};
use rlex::client::{local_health_url, local_query_url, rows_from_bindings};
use rlex::config::{join_path, Config};
use rlex::load::{find_commit_dir, is_statement_line, load_outcome, nquads_kind, sort_names, StatementTally};
use rlex::moreinfo::{find_topic, topics};
use rlex::query::{
    compact_iri, csv_cell, csv_line, format_term, graph_format, json_record, parse_row_format, tsv_line,
    GraphFormat, RdfTerm, RowFormat,
};
use rlex::serve::{localhost_url, serve_args, sparql_from_body, sparql_from_decoded, term_json};

fn s(x: &str) -> String {
    x.to_string()
}

#[test]
fn paths_join_as_on_unix() {
    assert_eq!(join_path("/home/u/.rlex", "cache"), "/home/u/.rlex/cache");
    assert_eq!(join_path("/home/u/.rlex/", "cache"), "/home/u/.rlex/cache");
    assert_eq!(join_path("", "cache"), "cache");
    assert_eq!(join_path("/a", "/etc"), "/etc");
    assert_eq!(join_path("a", ""), "a/");
}

#[test]
fn config_paths() {
    let c = Config::with_root("/r");
    assert_eq!(c.paths.oxigraph, "/r/oxigraph");
    assert_eq!(c.paths.cache, "/r/cache");
    assert_eq!(c.paths.repos, "/r/repos");
    assert_eq!(c.server.sparql_port, 7878);
    assert_eq!(c.server.viz_port, 3000);
    assert_eq!(c.cache_path("dtolnay", "syn"), "/r/cache/dtolnay/syn");
    assert_eq!(c.repo_path("a", "b"), "/r/repos/a/b");
    assert_eq!(c.forx_index_path(), "/r/repos/repolex-forx/forx-index");
}

#[test]
fn iris_are_compacted_with_the_first_prefix() {
    assert_eq!(compact_iri("https://repolex.ai/ontology/ast-x#Node"), "ast-x:Node");
    assert_eq!(compact_iri("https://repolex.ai/ontology/ast#Node"), "ast:Node");
    assert_eq!(compact_iri("https://repolex.ai/r/dtolnay/syn"), "r:dtolnay/syn");
    assert_eq!(compact_iri("http://www.w3.org/2001/XMLSchema#integer"), "xsd:integer");
    assert_eq!(compact_iri("http://example.org/x"), "http://example.org/x");
}

#[test]
fn terms_are_shown() {
    assert_eq!(format_term(&RdfTerm::NamedNode(s("http://www.w3.org/ns/shacl#Shape"))), "sh:Shape");
    assert_eq!(format_term(&RdfTerm::BlankNode(s("b0"))), "_:b0");
    let lit = |v: &str, dt: &str, l: Option<&str>| RdfTerm::Literal {
        value: s(v),
        datatype: s(dt),
        language: l.map(s),
    };
    assert_eq!(format_term(&lit("42", "http://www.w3.org/2001/XMLSchema#integer", None)), "42");
    assert_eq!(
        format_term(&lit("hi", "http://www.w3.org/1999/02/22-rdf-syntax-ns#langString", Some("en"))),
        "hi@en"
    );
    assert_eq!(
        format_term(&lit("2024-01-01", "http://www.w3.org/2001/XMLSchema#date", None)),
        "2024-01-01^^xsd:date"
    );
    assert_eq!(format_term(&RdfTerm::Other(s("<< a b c >>"))), "<< a b c >>");
}

#[test]
fn csv_and_tsv_lines() {
    assert_eq!(csv_cell("plain"), "plain");
    assert_eq!(csv_cell("a,b"), "\"a,b\"");
    assert_eq!(csv_cell("say \"hi\""), "\"say \"\"hi\"\"\"");
    assert_eq!(csv_cell("two\nlines"), "\"two\nlines\"");
    assert_eq!(csv_line(&vec![s("a"), s("b,c"), s("")]), "a,\"b,c\",");
    assert_eq!(tsv_line(&vec![s("a"), s("b")]), "a\tb");
    assert_eq!(tsv_line(&vec![]), "");
}

#[test]
fn formats_are_chosen_by_name() {
    assert_eq!(parse_row_format("csv"), Ok(RowFormat::Csv));
    assert_eq!(parse_row_format("json"), Ok(RowFormat::Json));
    assert_eq!(
        parse_row_format("xml"),
        Err(s("Unknown format 'xml'. Supported: table, csv, tsv, json"))
    );
    assert_eq!(graph_format("nt"), GraphFormat::NTriples);
    assert_eq!(graph_format("nquads"), GraphFormat::NQuads);
    assert_eq!(graph_format("table"), GraphFormat::Turtle);
    assert_eq!(graph_format("json-ld"), GraphFormat::JsonLd);
    assert_eq!(graph_format("jsonld"), GraphFormat::JsonLd);
    assert_eq!(graph_format("turtle"), GraphFormat::Turtle);
}

#[test]
fn json_records_pad_short_rows() {
    let r = json_record(&vec![s("a"), s("b")], &vec![s("1")]);
    assert_eq!(r, vec![(s("a"), s("1")), (s("b"), s(""))]);
}

#[test]
fn nquads_files_and_statements() {
    assert_eq!(nquads_kind("ast.nq.gz"), Some(true));
    assert_eq!(nquads_kind("ast.nq"), Some(false));
    assert_eq!(nquads_kind("ast.ttl"), None);
    assert!(is_statement_line("  <a> <b> <c> <g> ."));
    assert!(!is_statement_line("   "));
    assert!(!is_statement_line("  # comment"));
    let mut t = StatementTally::new();
    for l in ["<a> <b> <c> .", "", "# x", "<d> <e> <f> ."] {
        t.observe(l);
    }
    assert_eq!(t.count, 2);
}

#[test]
fn commit_dirs_and_load_outcome() {
    let names = vec![s("zz99"), s("abc123"), s("abd000")];
    assert_eq!(find_commit_dir(&names, "ab"), Ok(s("abc123")));
    assert_eq!(find_commit_dir(&names, "q"), Err(s("No cached commit matching 'q' found")));
    assert_eq!(sort_names(&names), vec![s("abc123"), s("abd000"), s("zz99")]);
    assert!(load_outcome(0, 0, "a", "b").is_ok());
    assert!(load_outcome(1, 3, "a", "b").is_ok());
    assert_eq!(
        load_outcome(0, 2, "a", "b"),
        Err(s("no files loaded for a/b — every graph file failed to parse"))
    );
}

#[test]
fn topics_are_found_by_name_or_tag() {
    let ts = topics();
    assert_eq!(ts.len(), 7);
    let i = find_topic("  Optimization ").unwrap();
    assert_eq!(ts[i].topic, "scan-guard");
    let j = find_topic("transitive").unwrap();
    assert_eq!(ts[j].topic, "closures");
    let k = find_topic("architecture").unwrap();
    assert_eq!(ts[k].topic, "diamond");
    assert_eq!(find_topic("nothing-here"), None);
    assert!(ts[0].content.starts_with("# Repolex SPARQL Query Recipes Cheat Sheet"));
    assert!(ts[0].sparql_recipe.is_none());
}

#[test]
fn bench_profiles_are_selected() {
    assert_eq!(profiles().len(), 5);
    assert_eq!(select_profiles("all"), vec![0, 1, 2, 3, 4]);
    assert_eq!(select_profiles("POSIX"), vec![3]);
    assert_eq!(select_profiles("diamond"), vec![1]);
    assert_eq!(select_profiles("hop"), vec![0, 1, 2, 3, 4]);
    assert!(select_profiles("nope").is_empty());
    assert!(eq_ignore_ascii_case("Search-Triad", "search-triad"));
    assert!(!eq_ignore_ascii_case("search", "search-triad"));
    assert_eq!(format_num(118_647_867), "118,647,867");
    assert_eq!(format_num(0), "0");
    assert_eq!(format_num(1000), "1,000");
    assert_eq!(chrono_like_timestamp(1712345678, 5), "1712345678.5");
}

#[test]
fn request_bodies_are_decoded() {
    assert_eq!(sparql_from_body("query=SELECT%20%3Fs%20WHERE%20%7B%7D"), "SELECT ?s WHERE {}");
    assert_eq!(sparql_from_body("query=a+b"), "a+b");
    assert_eq!(sparql_from_body("SELECT * {}"), "SELECT * {}");
    assert_eq!(sparql_from_body("query=%FF"), "");
    assert_eq!(sparql_from_body("query=100%"), "100%");
    assert_eq!(sparql_from_body("query=%4g%41"), "%4gA");
    assert_eq!(sparql_from_body("query=%41%4"), "A%4");
    assert_eq!(sparql_from_body("query=%e2%9c%93"), "\u{2713}");
    assert_eq!(sparql_from_decoded(None), "");
    assert_eq!(sparql_from_decoded(Some(s("x"))), "x");
}

#[test]
fn terms_as_json() {
    let t = term_json(&RdfTerm::Literal {
        value: s("v"),
        datatype: s("http://www.w3.org/2001/XMLSchema#string"),
        language: None,
    });
    assert_eq!((t.kind, t.value.as_str(), t.lang.is_none(), t.datatype.is_none()), ("literal", "v", true, true));
    let u = term_json(&RdfTerm::Literal {
        value: s("1"),
        datatype: s("http://www.w3.org/2001/XMLSchema#integer"),
        language: None,
    });
    assert_eq!(u.datatype.as_deref(), Some("http://www.w3.org/2001/XMLSchema#integer"));
    assert_eq!(term_json(&RdfTerm::NamedNode(s("http://x"))).kind, "uri");
    assert_eq!(term_json(&RdfTerm::BlankNode(s("b"))).kind, "bnode");
}

#[test]
fn server_command_line_and_urls() {
    assert_eq!(
        serve_args(7878, Some("/viz")),
        vec![s("serve"), s("--foreground"), s("--port"), s("7878"), s("--no-browser"), s("--viz-dir"), s("/viz")]
    );
    assert_eq!(serve_args(80, None).len(), 5);
    assert_eq!(localhost_url(7878), "http://localhost:7878");
    assert_eq!(local_query_url(7878), "http://localhost:7878/query");
    assert_eq!(local_health_url(1), "http://localhost:1/health");
}

#[test]
fn json_bindings_become_rows() {
    let vars = vec![s("a"), s("b")];
    let bindings = vec![
        vec![(s("b"), Some(s("2"))), (s("a"), Some(s("1")))],
        vec![(s("a"), None)],
    ];
    let rows = rows_from_bindings(&vars, &bindings);
    assert_eq!(rows, vec![vec![s("1"), s("2")], vec![s(""), s("")]]);
}
