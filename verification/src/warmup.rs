//! Pre-warming of the backbone graphs: the count queries that touch each
//! LSP graph, and the record of the graphs that answered.
use vstd::prelude::*;
use crate::cycles;
use crate::registry::RepoRef;
use crate::text;

verus! {

/// Head of the query that counts the quads of a graph.
pub const WARMUP_COUNT_HEAD: &'static str = "SELECT (COUNT(?s) AS ?cnt) WHERE { GRAPH <";

/// Tail of the query that counts the quads of a graph.
pub const WARMUP_COUNT_TAIL: &'static str = "> { ?s ?p ?o } }";

/// The four-hop traversal run once the graphs are warm.
pub const WARMUP_PROBE_QUERY: &'static str = "\nPREFIX lx: <https://repolex.ai/ontology/repolex/lsp-extension/>\nSELECT ?rlexFile ?actixFile ?regexFile ?ahoFile ?memchrTarget\nWHERE {\n  GRAPH <https://repolex.ai/r/repolex-ai/rlex/lsp/550a8e5a1a7b121bd970eff3e7575acd158f6bb8> {\n    ?e1 lx:resolutionSourceFile ?rlexFile ;\n        lx:externalPackage \"actix-web\" .\n  }\n  GRAPH <https://repolex.ai/r/actix/actix-web/lsp/5723cf486522d47aad26390cf5b02e95654ae225> {\n    ?e2 lx:resolutionSourceFile ?actixFile ;\n        lx:externalPackage \"regex\" .\n  }\n  GRAPH <https://repolex.ai/r/rust-lang/regex/lsp/25a15e272b3ae5aee76b525902c2ab91b0d9e12e> {\n    ?e3 lx:resolutionSourceFile ?regexFile ;\n        lx:externalPackage \"aho-corasick\" .\n  }\n  GRAPH <https://repolex.ai/r/BurntSushi/aho-corasick/lsp/d84a5073d5108fce1774b375105dfdb13fe4e81c> {\n    ?e4 lx:resolutionSourceFile ?ahoFile ;\n        lx:externalPackage \"memchr\" ;\n        lx:callTarget ?memchrTarget .\n  }\n}\nLIMIT 10\n";

/// The query counting the quads of the LSP graph of `repo`.
pub fn warmup_count_query(repo: &RepoRef) -> (s: String)
    ensures
        s@ == WARMUP_COUNT_HEAD@ + cycles::lsp_of(repo@) + WARMUP_COUNT_TAIL@,
{
    let iri = repo.lsp_graph();
    let mut v = text::chars_of(WARMUP_COUNT_HEAD);
    text::push_str(&mut v, iri.as_str());
    text::push_str(&mut v, WARMUP_COUNT_TAIL);
    text::string_from_chars(&v)
}

/// A warmed graph, without its timing.
#[derive(Debug)]
pub struct WarmedGraph {
    pub repo: String,
    pub graph_type: String,
    pub graph_iri: String,
    pub quads_touched: usize,
}

/// View of a warmed graph.
pub open spec fn warmed_view(w: WarmedGraph) -> (Seq<char>, Seq<char>, Seq<char>, nat) {
    (w.repo@, w.graph_type@, w.graph_iri@, w.quads_touched as nat)
}

/// The record of a warmed graph when its count query found quads: the
/// repository as `org/repo`, the `lsp` type, the graph IRI and the count
/// (the first cell of the first row read as a number, 0 otherwise).
pub fn warmed_graph(repo: &RepoRef, rows: &Vec<Vec<String>>) -> (r: Option<WarmedGraph>)
    ensures
        match r {
            Some(w) => {
                &&& cycles::first_row_count(rows@, 0) > 0
                &&& warmed_view(w) == (
                    repo.org@ + "/"@ + repo.repo@,
                    "lsp"@,
                    cycles::lsp_of(repo@),
                    cycles::first_row_count(rows@, 0),
                )
            },
            None => cycles::first_row_count(rows@, 0) == 0,
        },
{
    let n = cycles::first_row_count_exec(rows, 0);
    if n > 0 {
        let mut name = text::chars_of(repo.org.as_str());
        text::push_str(&mut name, "/");
        text::push_str(&mut name, repo.repo.as_str());
        Some(
            WarmedGraph {
                repo: text::string_from_chars(&name),
                graph_type: "lsp".to_owned(),
                graph_iri: repo.lsp_graph(),
                quads_touched: n,
            },
        )
    } else {
        None
    }
}

/// How the store is reached, as shown while warming.
pub fn mode_label(remote: bool) -> (r: &'static str)
    ensures
        r@ == if remote {
            "Remote HTTP (:7878)"@
        } else {
            "Local RocksDB Read-Only"@
        },
{
    if remote {
        "Remote HTTP (:7878)"
    } else {
        "Local RocksDB Read-Only"
    }
}

} // verus!
