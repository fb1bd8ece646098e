//! SPARQL texts of the store and repository audits.
use vstd::prelude::*;
use crate::text;

verus! {

/// Probe of the one-hop socket2 ➔ libc call edges.
pub const POSIX_PROBE_QUERY: &'static str = "\nPREFIX lx: <https://repolex.ai/ontology/repolex/lsp-extension/>\nSELECT ?f ?t WHERE {\n  GRAPH <https://repolex.ai/r/rust-lang/socket2/lsp/239dd83a4ced08e514d2c38942aab99791119f0d> {\n    ?e lx:resolutionSourceFile ?f ; lx:externalPackage \"libc\" ; lx:callTarget ?t .\n  }\n} LIMIT 1\n";

/// Probe of the four-hop web-to-search traversal.
pub const TRAVERSAL_PROBE_QUERY: &'static str = "\nPREFIX lx: <https://repolex.ai/ontology/repolex/lsp-extension/>\nSELECT ?m WHERE {\n  GRAPH <https://repolex.ai/r/repolex-ai/rlex/lsp/550a8e5a1a7b121bd970eff3e7575acd158f6bb8> { ?e1 lx:externalPackage \"actix-web\" . }\n  GRAPH <https://repolex.ai/r/actix/actix-web/lsp/5723cf486522d47aad26390cf5b02e95654ae225> { ?e2 lx:externalPackage \"regex\" . }\n  GRAPH <https://repolex.ai/r/rust-lang/regex/lsp/25a15e272b3ae5aee76b525902c2ab91b0d9e12e> { ?e3 lx:externalPackage \"aho-corasick\" . }\n  GRAPH <https://repolex.ai/r/BurntSushi/aho-corasick/lsp/d84a5073d5108fce1774b375105dfdb13fe4e81c> { ?e4 lx:externalPackage \"memchr\" ; lx:callTarget ?m . }\n} LIMIT 1\n";

/// Part 0 of the query counting the quads of each graph layer.
pub const LAYERS_QUERY_0: &'static str = "\nSELECT ?type (COUNT(*) AS ?quads) WHERE {\n  VALUES (?type ?g) {\n    (\"AST\" <";

/// Part 1 of the query counting the quads of each graph layer.
pub const LAYERS_QUERY_1: &'static str = ">)\n    (\"LSP\" <";

/// Part 2 of the query counting the quads of each graph layer.
pub const LAYERS_QUERY_2: &'static str = ">)\n    (\"DEP\" <";

/// Part 3 of the query counting the quads of each graph layer.
pub const LAYERS_QUERY_3: &'static str = ">)\n    (\"REPOLEX\" <";

/// Part 4 of the query counting the quads of each graph layer.
pub const LAYERS_QUERY_4: &'static str = ">)\n  }\n  GRAPH ?g { ?s ?p ?o }\n} GROUP BY ?type\n";

/// Head of the query counting the distinct files of an AST graph.
pub const FILES_QUERY_HEAD: &'static str = "\nSELECT (COUNT(DISTINCT ?file) AS ?files) WHERE {\n  GRAPH <";

/// Tail of the query counting the distinct files of an AST graph.
pub const FILES_QUERY_TAIL: &'static str = "> {\n    ?s <https://repolex.ai/ontology/repolex/ast-extension/filePath> ?file .\n  }\n}\n";

/// Head of the query counting the Rust syntax items of an AST graph.
pub const ITEMS_QUERY_HEAD: &'static str = "\nPREFIX rust: <https://repolex.ai/ontology/extracts/tree-sitter/tree-sitter/v0.25/lang/rust/>\nSELECT ?type (COUNT(*) AS ?cnt) WHERE {\n  GRAPH <";

/// Tail of the query counting the Rust syntax items of an AST graph.
pub const ITEMS_QUERY_TAIL: &'static str = "> {\n    ?s a ?type .\n    VALUES ?type {\n      rust:function_item\n      rust:struct_item\n      rust:enum_item\n      rust:impl_item\n      rust:call_expression\n      rust:macro_invocation\n    }\n  }\n} GROUP BY ?type\n";

/// Head of the query for the five files with most functions.
pub const TOP_MODULES_QUERY_HEAD: &'static str = "\nPREFIX ast: <https://repolex.ai/ontology/repolex/ast-extension/>\nPREFIX rust: <https://repolex.ai/ontology/extracts/tree-sitter/tree-sitter/v0.25/lang/rust/>\nSELECT ?file (COUNT(?fn) AS ?fn_count) WHERE {\n  GRAPH <";

/// Tail of the query for the five files with most functions.
pub const TOP_MODULES_QUERY_TAIL: &'static str = "> {\n    ?fn a rust:function_item ;\n        ast:filePath ?file .\n  }\n} GROUP BY ?file ORDER BY DESC(?fn_count) LIMIT 5\n";

/// Head of the query for the fifteen packages called most.
pub const EXTERNAL_QUERY_HEAD: &'static str = "\nPREFIX lx: <https://repolex.ai/ontology/repolex/lsp-extension/>\nSELECT ?pkg (COUNT(?e) AS ?calls) WHERE {\n  GRAPH <";

/// Tail of the query for the fifteen packages called most.
pub const EXTERNAL_QUERY_TAIL: &'static str = "> {\n    ?e lx:externalPackage ?pkg .\n  }\n} GROUP BY ?pkg ORDER BY DESC(?calls) LIMIT 15\n";

/// Head of the query for the declared dependencies.
pub const DECLARED_QUERY_HEAD: &'static str = "\nPREFIX lx: <https://repolex.ai/ontology/repolex/>\nSELECT ?name ?ver ?org ?repo WHERE {\n  GRAPH <";

/// Tail of the query for the declared dependencies.
pub const DECLARED_QUERY_TAIL: &'static str = "> {\n    ?d a lx:Dependency ;\n       lx:packageName ?name .\n    OPTIONAL { ?d lx:packageVersion ?ver }\n    OPTIONAL { ?d lx:githubOrg ?org }\n    OPTIONAL { ?d lx:githubRepo ?repo }\n  }\n} ORDER BY ?name LIMIT 35\n";

/// Head of the query for files that call each other.
pub const INTERNAL_QUERY_HEAD: &'static str = "\nPREFIX lx: <https://repolex.ai/ontology/repolex/lsp-extension/>\nSELECT DISTINCT ?srcA ?srcB WHERE {\n  GRAPH <";

/// Tail of the query for files that call each other.
pub const INTERNAL_QUERY_TAIL: &'static str = "> {\n    ?e1 lx:resolutionSourceFile ?srcA ; lx:callTargetFile ?srcB .\n    ?e2 lx:resolutionSourceFile ?srcB ; lx:callTargetFile ?srcA .\n    FILTER(STR(?srcA) < STR(?srcB))\n  }\n} LIMIT 10\n";

/// Part 0 of the query counting calls back into the audited package.
pub const REVERSE_QUERY_0: &'static str = "\nPREFIX lx: <https://repolex.ai/ontology/repolex/lsp-extension/>\nSELECT (COUNT(?e) AS ?cnt) WHERE {\n  GRAPH <";

/// Part 1 of the query counting calls back into the audited package.
pub const REVERSE_QUERY_1: &'static str = "> {\n    ?e lx:externalPackage ?callerPkg .\n    FILTER(LCASE(STR(?callerPkg)) = \"";

/// Part 2 of the query counting calls back into the audited package.
pub const REVERSE_QUERY_2: &'static str = "\")\n  }\n}\n";

/// A query made of a head, a graph IRI and a tail.
pub open spec fn graph_query_spec(head: Seq<char>, iri: Seq<char>, tail: Seq<char>) -> Seq<char> {
    head + iri + tail
}

/// Builds a query from its head, a graph IRI and its tail.
pub fn graph_query(head: &str, iri: &str, tail: &str) -> (s: String)
    ensures
        s@ == graph_query_spec(head@, iri@, tail@),
{
    let mut v = text::chars_of(head);
    text::push_str(&mut v, iri);
    text::push_str(&mut v, tail);
    text::string_from_chars(&v)
}

/// The query counting the quads of the AST, LSP, DEP and REPOLEX graphs.
pub open spec fn layers_query_spec(ast: Seq<char>, lsp: Seq<char>, dep: Seq<char>, repolex: Seq<char>) -> Seq<char> {
    LAYERS_QUERY_0@ + ast + LAYERS_QUERY_1@ + lsp + LAYERS_QUERY_2@ + dep + LAYERS_QUERY_3@ + repolex + LAYERS_QUERY_4@
}

/// Builds the query counting the quads of the four graph layers.
pub fn layers_query(ast: &str, lsp: &str, dep: &str, repolex: &str) -> (s: String)
    ensures
        s@ == layers_query_spec(ast@, lsp@, dep@, repolex@),
{
    let mut v = text::chars_of(LAYERS_QUERY_0);
    text::push_str(&mut v, ast);
    text::push_str(&mut v, LAYERS_QUERY_1);
    text::push_str(&mut v, lsp);
    text::push_str(&mut v, LAYERS_QUERY_2);
    text::push_str(&mut v, dep);
    text::push_str(&mut v, LAYERS_QUERY_3);
    text::push_str(&mut v, repolex);
    text::push_str(&mut v, LAYERS_QUERY_4);
    text::string_from_chars(&v)
}

/// The query counting calls of graph `lsp` into the package `caller`.
pub open spec fn reverse_query_spec(lsp: Seq<char>, caller: Seq<char>) -> Seq<char> {
    REVERSE_QUERY_0@ + lsp + REVERSE_QUERY_1@ + caller + REVERSE_QUERY_2@
}

/// Builds the query counting calls of graph `lsp` into the package `caller`.
pub fn reverse_query(lsp: &str, caller: &str) -> (s: String)
    ensures
        s@ == reverse_query_spec(lsp@, caller@),
{
    let mut v = text::chars_of(REVERSE_QUERY_0);
    text::push_str(&mut v, lsp);
    text::push_str(&mut v, REVERSE_QUERY_1);
    text::push_str(&mut v, caller);
    text::push_str(&mut v, REVERSE_QUERY_2);
    text::string_from_chars(&v)
}

} // verus!
