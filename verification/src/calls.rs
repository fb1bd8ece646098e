//! Multi-hop call-graph traversal between repositories: name normalisation,
//! the choice of traversal query, and the shaping of result rows.
use vstd::prelude::*;
use crate::equivalence;
use crate::queries;
use crate::registry;
use crate::scan_guard;
use crate::text;

verus! {

/// Options of a traversal request.
pub struct CallsOptions {
    pub from: String,
    pub to: String,
    pub hops: Option<usize>,
    pub format: String,
    pub endpoint: Option<String>,
}

/// One resolved call path.
#[derive(Debug)]
pub struct CallPathJson {
    pub hop_chain: Vec<String>,
    pub files: Vec<String>,
    pub target: String,
    pub canonical_target: Option<String>,
    pub lockfile_sha: Option<String>,
}

/// Why no traversal query could be built.
#[derive(Debug)]
pub enum PlanError {
    /// No LSP graph is registered for the source repository.
    NoGraphForSource(String),
}

impl PlanError {
    /// Human-readable message.
    pub fn message(&self) -> (s: String)
        ensures
            match self {
                PlanError::NoGraphForSource(f) => s@
                    == "No indexed LSP graph registered for source repository '"@ + f@ + "'"@,
            },
    {
        match self {
            PlanError::NoGraphForSource(f) => {
                let mut v: Vec<char> = Vec::new();
                text::push_str(&mut v, "No indexed LSP graph registered for source repository '");
                text::push_str(&mut v, f.as_str());
                text::push_str(&mut v, "'");
                text::string_from_chars(&v)
            },
        }
    }
}

/// What `normalize_name` answers: trimmed, lower-cased, last `/` segment,
/// with `-rs` and `_rs` removed.
pub open spec fn normalize_name_spec(s: Seq<char>) -> Seq<char> {
    name_from_normalized_spec(registry::normalized_query(s))
}

/// The last `/` segment of a trimmed, lower-cased name, with `-rs` and `_rs`
/// removed.
pub open spec fn name_from_normalized_spec(q: Seq<char>) -> Seq<char> {
    registry::clean_name(text::after_last_seq(q, '/'))
}

/// Normalise a repository name: `tokio-rs/axum` becomes `axum`.
pub fn normalize_name(s: &str) -> (r: String)
    ensures
        r@ == normalize_name_spec(s@),
{
    let clean = registry::normalize_query(s);
    let cs = text::string_from_chars(&clean);
    name_from_normalized(cs.as_str())
}

/// The repository name of an already trimmed and lower-cased name, as
/// [`name_from_normalized_spec`] says.
pub fn name_from_normalized(q: &str) -> (r: String)
    ensures
        r@ == name_from_normalized_spec(q@),
{
    let clean = text::chars_of(q);
    let last = text::after_last_chars(&clean, '/');
    let dash = text::chars_of("-rs");
    let under = text::chars_of("_rs");
    let empty: Vec<char> = Vec::new();
    proof {
        reveal_strlit("-rs");
        reveal_strlit("_rs");
    }
    assert(empty@ =~= Seq::<char>::empty());
    let once = text::replace_chars(&last, &dash, &empty);
    let twice = text::replace_chars(&once, &under, &empty);
    text::string_from_chars(&twice)
}

/// LSP graph of the source repository of a generic one-hop traversal.
pub open spec fn generic_source_graph(from: Seq<char>) -> Option<Seq<char>> {
    if text::contains_seq(from, "rlex"@) {
        Some("https://repolex.ai/r/repolex-ai/rlex/lsp/550a8e5a1a7b121bd970eff3e7575acd158f6bb8"@)
    } else if text::contains_seq(from, "actix"@) {
        Some("https://repolex.ai/r/actix/actix-web/lsp/5723cf486522d47aad26390cf5b02e95654ae225"@)
    } else if text::contains_seq(from, "regex"@) {
        Some("https://repolex.ai/r/rust-lang/regex/lsp/25a15e272b3ae5aee76b525902c2ab91b0d9e12e"@)
    } else if text::contains_seq(from, "aho"@) {
        Some(
            "https://repolex.ai/r/BurntSushi/aho-corasick/lsp/d84a5073d5108fce1774b375105dfdb13fe4e81c"@,
        )
    } else if text::contains_seq(from, "axum"@) {
        Some("https://repolex.ai/r/tokio-rs/axum/lsp/c59208c86fded335cd85e388030ad59347b0e5ae"@)
    } else if text::contains_seq(from, "syn"@) {
        Some("https://repolex.ai/r/dtolnay/syn/lsp/7bcb37cdb3399977658c8b52d2441d37e42e48f2"@)
    } else if text::contains_seq(from, "quote"@) {
        Some("https://repolex.ai/r/dtolnay/quote/lsp/842ffde933fdd76cd1681a288bed136d8b95a97a"@)
    } else if text::contains_seq(from, "socket"@) {
        Some("https://repolex.ai/r/rust-lang/socket2/lsp/239dd83a4ced08e514d2c38942aab99791119f0d"@)
    } else if text::contains_seq(from, "flate"@) {
        Some("https://repolex.ai/r/rust-lang/flate2-rs/lsp/93c81772305a102f1ec846bd12713dd7bf1e3f04"@)
    } else {
        None
    }
}

/// Text of the generic one-hop query from `graph` to packages named `to`.
pub open spec fn generic_query(graph: Seq<char>, to: Seq<char>) -> Seq<char> {
    queries::GENERIC_QUERY_HEAD@ + graph + queries::GENERIC_QUERY_PART1@ + to
        + queries::GENERIC_QUERY_PART2@ + to + queries::GENERIC_QUERY_PART3@ + to
        + queries::GENERIC_QUERY_PART4@
}

/// Text of the one-hop query from flate2 to `pkg`.
pub open spec fn compression_query(pkg: Seq<char>) -> Seq<char> {
    queries::COMPRESSION_QUERY_HEAD@ + pkg + queries::COMPRESSION_QUERY_TAIL@
}

/// The traversal chosen for normalised `from` and `to` names: the query
/// text, the chain of repositories it walks, and the hop count; or the
/// source name when no graph is registered for it.
pub open spec fn query_plan(from: Seq<char>, to: Seq<char>, explicit_hops: Option<usize>) -> Result<
    (Seq<char>, Seq<Seq<char>>, nat),
    Seq<char>,
> {
    let c = |s: Seq<char>, p: Seq<char>| text::contains_seq(s, p);
    if (c(from, "rlex"@) || c(from, "viz"@)) && c(to, "memchr"@) {
        Ok(
            (
                queries::WEB_TO_SEARCH_QUERY@,
                seq!["rlex-viz"@, "actix-web"@, "regex"@, "aho-corasick"@, "memchr"@],
                4,
            ),
        )
    } else if c(from, "actix"@) && c(to, "memchr"@) {
        Ok(
            (
                queries::ACTIX_TO_MEMCHR_QUERY@,
                seq!["actix-web"@, "regex"@, "aho-corasick"@, "memchr"@],
                3,
            ),
        )
    } else if c(from, "regex"@) && c(to, "memchr"@) {
        Ok((queries::SEARCH_TRIAD_QUERY@, seq!["regex"@, "aho-corasick"@, "memchr"@], 2))
    } else if c(from, "rlex"@) && c(to, "proc-macro"@) {
        Ok(
            (
                queries::MACRO_DIAMOND_QUERY@,
                seq!["rlex"@, "axum"@, "syn"@, "quote"@, "proc-macro2"@],
                4,
            ),
        )
    } else if c(from, "axum"@) && c(to, "proc-macro"@) {
        Ok(
            (
                queries::AXUM_TO_PROC_MACRO_QUERY@,
                seq!["axum"@, "syn"@, "quote"@, "proc-macro2"@],
                3,
            ),
        )
    } else if c(from, "socket"@) && c(to, "libc"@) {
        Ok((queries::SOCKET_TO_LIBC_QUERY@, seq!["socket2"@, "libc"@], 1))
    } else if c(from, "git2"@) && c(to, "libc"@) {
        Ok((queries::GIT2_TO_LIBC_QUERY@, seq!["git2-rs"@, "libc"@], 1))
    } else if c(from, "flate"@) && (c(to, "miniz"@) || c(to, "crc"@)) {
        let pkg = if c(to, "miniz"@) {
            "miniz_oxide"@
        } else {
            "crc32fast"@
        };
        Ok((compression_query(pkg), seq!["flate2"@, pkg], 1))
    } else {
        match generic_source_graph(from) {
            Some(g) => Ok(
                (
                    generic_query(g, to),
                    seq![from, to],
                    match explicit_hops {
                        Some(h) => h as nat,
                        None => 1,
                    },
                ),
            ),
            None => Err(from),
        }
    }
}

fn has(s: &Vec<char>, p: &str) -> (r: bool)
    ensures
        r == text::contains_seq(s@, p@),
{
    let pv = text::chars_of(p);
    text::contains_chars(s, &pv)
}

fn strings_of(v: Vec<&str>) -> (r: Vec<String>)
    ensures
        r@.map_values(|x: String| x@) == v@.map_values(|x: &str| x@),
{
    let mut r: Vec<String> = Vec::new();
    let mut i: usize = 0;
    while i < v.len()
        invariant
            i <= v@.len(),
            r@.map_values(|x: String| x@) == v@.take(i as int).map_values(|x: &str| x@),
        decreases v.len() - i,
    {
        let ghost old_r = r@;
        r.push(v[i].to_owned());
        assert(r@.map_values(|x: String| x@) =~= old_r.map_values(|x: String| x@).push(v@[i as int]@));
        assert(v@.take(i + 1).map_values(|x: &str| x@) =~= v@.take(i as int).map_values(
            |x: &str| x@,
        ).push(v@[i as int]@));
        i = i + 1;
    }
    assert(v@.take(v@.len() as int) =~= v@);
    r
}

fn source_graph(from: &Vec<char>) -> (r: Option<&'static str>)
    ensures
        match r {
            Some(g) => generic_source_graph(from@) == Some(g@),
            None => generic_source_graph(from@) is None,
        },
{
    if has(from, "rlex") {
        Some("https://repolex.ai/r/repolex-ai/rlex/lsp/550a8e5a1a7b121bd970eff3e7575acd158f6bb8")
    } else if has(from, "actix") {
        Some("https://repolex.ai/r/actix/actix-web/lsp/5723cf486522d47aad26390cf5b02e95654ae225")
    } else if has(from, "regex") {
        Some("https://repolex.ai/r/rust-lang/regex/lsp/25a15e272b3ae5aee76b525902c2ab91b0d9e12e")
    } else if has(from, "aho") {
        Some(
            "https://repolex.ai/r/BurntSushi/aho-corasick/lsp/d84a5073d5108fce1774b375105dfdb13fe4e81c",
        )
    } else if has(from, "axum") {
        Some("https://repolex.ai/r/tokio-rs/axum/lsp/c59208c86fded335cd85e388030ad59347b0e5ae")
    } else if has(from, "syn") {
        Some("https://repolex.ai/r/dtolnay/syn/lsp/7bcb37cdb3399977658c8b52d2441d37e42e48f2")
    } else if has(from, "quote") {
        Some("https://repolex.ai/r/dtolnay/quote/lsp/842ffde933fdd76cd1681a288bed136d8b95a97a")
    } else if has(from, "socket") {
        Some("https://repolex.ai/r/rust-lang/socket2/lsp/239dd83a4ced08e514d2c38942aab99791119f0d")
    } else if has(from, "flate") {
        Some("https://repolex.ai/r/rust-lang/flate2-rs/lsp/93c81772305a102f1ec846bd12713dd7bf1e3f04")
    } else {
        None
    }
}

/// View of a planned traversal.
pub open spec fn plan_view(r: Result<(String, Vec<String>, usize), PlanError>) -> Result<
    (Seq<char>, Seq<Seq<char>>, nat),
    Seq<char>,
> {
    match r {
        Ok((q, chain, hops)) => Ok((q@, chain@.map_values(|x: String| x@), hops as nat)),
        Err(PlanError::NoGraphForSource(f)) => Err(f@),
    }
}

/// Choose the traversal query for normalised `from` and `to` names: one of
/// the registered multi-hop traversals, or a generic one-hop query from the
/// source repository's LSP graph.
#[verifier::rlimit(50)]
pub fn select_or_build_query(from: &str, to: &str, explicit_hops: Option<usize>) -> (r: Result<
    (String, Vec<String>, usize),
    PlanError,
>)
    ensures
        plan_view(r) == query_plan(from@, to@, explicit_hops),
{
    let f = text::chars_of(from);
    let t = text::chars_of(to);
    if (has(&f, "rlex") || has(&f, "viz")) && has(&t, "memchr") {
        let chain = strings_of(vec!["rlex-viz", "actix-web", "regex", "aho-corasick", "memchr"]);
        assert(chain@.map_values(|x: String| x@) =~= seq![
            "rlex-viz"@,
            "actix-web"@,
            "regex"@,
            "aho-corasick"@,
            "memchr"@,
        ]);
        return Ok((queries::WEB_TO_SEARCH_QUERY.to_owned(), chain, 4));
    }
    if has(&f, "actix") && has(&t, "memchr") {
        let chain = strings_of(vec!["actix-web", "regex", "aho-corasick", "memchr"]);
        assert(chain@.map_values(|x: String| x@) =~= seq!["actix-web"@, "regex"@, "aho-corasick"@, "memchr"@]);
        return Ok((queries::ACTIX_TO_MEMCHR_QUERY.to_owned(), chain, 3));
    }
    if has(&f, "regex") && has(&t, "memchr") {
        let chain = strings_of(vec!["regex", "aho-corasick", "memchr"]);
        assert(chain@.map_values(|x: String| x@) =~= seq!["regex"@, "aho-corasick"@, "memchr"@]);
        return Ok((queries::SEARCH_TRIAD_QUERY.to_owned(), chain, 2));
    }
    if has(&f, "rlex") && has(&t, "proc-macro") {
        let chain = strings_of(vec!["rlex", "axum", "syn", "quote", "proc-macro2"]);
        assert(chain@.map_values(|x: String| x@) =~= seq!["rlex"@, "axum"@, "syn"@, "quote"@, "proc-macro2"@]);
        return Ok((queries::MACRO_DIAMOND_QUERY.to_owned(), chain, 4));
    }
    if has(&f, "axum") && has(&t, "proc-macro") {
        let chain = strings_of(vec!["axum", "syn", "quote", "proc-macro2"]);
        assert(chain@.map_values(|x: String| x@) =~= seq![
            "axum"@,
            "syn"@,
            "quote"@,
            "proc-macro2"@,
        ]);
        return Ok((queries::AXUM_TO_PROC_MACRO_QUERY.to_owned(), chain, 3));
    }
    if has(&f, "socket") && has(&t, "libc") {
        let chain = strings_of(vec!["socket2", "libc"]);
        assert(chain@.map_values(|x: String| x@) =~= seq!["socket2"@, "libc"@]);
        return Ok((queries::SOCKET_TO_LIBC_QUERY.to_owned(), chain, 1));
    }
    if has(&f, "git2") && has(&t, "libc") {
        let chain = strings_of(vec!["git2-rs", "libc"]);
        assert(chain@.map_values(|x: String| x@) =~= seq!["git2-rs"@, "libc"@]);
        return Ok((queries::GIT2_TO_LIBC_QUERY.to_owned(), chain, 1));
    }
    if has(&f, "flate") && (has(&t, "miniz") || has(&t, "crc")) {
        let target_pkg = if has(&t, "miniz") {
            "miniz_oxide"
        } else {
            "crc32fast"
        };
        let mut q = text::chars_of(queries::COMPRESSION_QUERY_HEAD);
        text::push_str(&mut q, target_pkg);
        text::push_str(&mut q, queries::COMPRESSION_QUERY_TAIL);
        let chain = strings_of(vec!["flate2", target_pkg]);
        assert(chain@.map_values(|x: String| x@) =~= seq!["flate2"@, target_pkg@]);
        assert(q@ =~= compression_query(target_pkg@));
        return Ok((text::string_from_chars(&q), chain, 1));
    }
    match source_graph(&f) {
        None => Err(PlanError::NoGraphForSource(from.to_owned())),
        Some(g) => {
            let mut q = text::chars_of(queries::GENERIC_QUERY_HEAD);
            text::push_str(&mut q, g);
            text::push_str(&mut q, queries::GENERIC_QUERY_PART1);
            text::push_str(&mut q, to);
            text::push_str(&mut q, queries::GENERIC_QUERY_PART2);
            text::push_str(&mut q, to);
            text::push_str(&mut q, queries::GENERIC_QUERY_PART3);
            text::push_str(&mut q, to);
            text::push_str(&mut q, queries::GENERIC_QUERY_PART4);
            assert(q@ =~= generic_query(g@, to@));
            let chain = strings_of(vec![from, to]);
            assert(chain@.map_values(|x: String| x@) =~= seq![from@, to@]);
            let hops = match explicit_hops {
                Some(h) => h,
                None => 1,
            };
            Ok((text::string_from_chars(&q), chain, hops))
        },
    }
}

} // verus!

verus! {

/// Source files of a result row: all cells but the last, or the single cell
/// of a one-cell row.
pub open spec fn row_files(row: Seq<String>) -> Seq<String> {
    if row.len() > 1 {
        row.take(row.len() - 1)
    } else {
        seq![row[0]]
    }
}

/// The call path a result row describes: its source files, its raw call
/// target (the last cell), and, when the target names a lockfile commit, the
/// canonical target and that commit. An empty row describes none.
pub fn call_path_from_row(hop_chain: &Vec<String>, row: &Vec<String>) -> (r: Option<CallPathJson>)
    ensures
        r is None <==> row.len() == 0,
        r matches Some(p) ==> {
            let (canonical, lock) = equivalence::canonicalize_spec(row@.last()@);
            &&& p.hop_chain@ == hop_chain@
            &&& p.files@ == row_files(row@)
            &&& p.target@ == row@.last()@
            &&& equivalence::opt_str_view(p.lockfile_sha) == lock
            &&& equivalence::opt_str_view(p.canonical_target) == (if lock is Some {
                Some(canonical)
            } else {
                None
            })
        },
{
    if row.len() == 0 {
        return None;
    }
    let files = if row.len() > 1 {
        text::clone_strings(row, 0, row.len() - 1)
    } else {
        text::clone_strings(row, 0, 1)
    };
    assert(files@ =~= row_files(row@));
    let raw_target = row[row.len() - 1].clone();
    let (canonical_target, lockfile_sha) = equivalence::canonicalize_call_target(
        raw_target.as_str(),
    );
    let canonical_opt = if lockfile_sha.is_some() {
        Some(canonical_target)
    } else {
        None
    };
    Some(
        CallPathJson {
            hop_chain: text::clone_strings(hop_chain, 0, hop_chain.len()),
            files,
            target: raw_target,
            canonical_target: canonical_opt,
            lockfile_sha,
        },
    )
}

proof fn lemma_anchored_web_to_search_query()
    ensures
        scan_guard::bound_graph_spec(queries::WEB_TO_SEARCH_QUERY@),
{
    let h = "\nPREFIX lx: <https://repolex.ai/ontology/repolex/lsp-extension/>\nSELECT ?rlexFile ?actixFile ?regexFile ?ahoFile ?memchrTarget\nWHERE {"@;
    let c = "GRAPH <https://repolex.ai/r/repolex-ai/rlex/lsp/550a8e5a1a7b121bd970eff3e7575acd158f6bb8> {"@;
    let t = "    ?e1 lx:resolutionSourceFile ?rlexFile ;\n        lx:externalPackage \"actix-web\" .\n  }\n  GRAPH <https://repolex.ai/r/actix/actix-web/lsp/5723cf486522d47aad26390cf5b02e95654ae225> {\n    ?e2 lx:resolutionSourceFile ?actixFile ;\n        lx:externalPackage \"regex\" .\n  }\n  GRAPH <https://repolex.ai/r/rust-lang/regex/lsp/25a15e272b3ae5aee76b525902c2ab91b0d9e12e> {\n    ?e3 lx:resolutionSourceFile ?regexFile ;\n        lx:externalPackage \"aho-corasick\" .\n  }\n  GRAPH <https://repolex.ai/r/BurntSushi/aho-corasick/lsp/d84a5073d5108fce1774b375105dfdb13fe4e81c> {\n    ?e4 lx:resolutionSourceFile ?ahoFile ;\n        lx:externalPackage \"memchr\" ;\n        lx:callTarget ?memchrTarget .\n  }\n}\nLIMIT 20\n"@;
    reveal_strlit("\nPREFIX lx: <https://repolex.ai/ontology/repolex/lsp-extension/>\nSELECT ?rlexFile ?actixFile ?regexFile ?ahoFile ?memchrTarget\nWHERE {");
    reveal_strlit("GRAPH <https://repolex.ai/r/repolex-ai/rlex/lsp/550a8e5a1a7b121bd970eff3e7575acd158f6bb8> {");
    reveal_strlit("    ?e1 lx:resolutionSourceFile ?rlexFile ;\n        lx:externalPackage \"actix-web\" .\n  }\n  GRAPH <https://repolex.ai/r/actix/actix-web/lsp/5723cf486522d47aad26390cf5b02e95654ae225> {\n    ?e2 lx:resolutionSourceFile ?actixFile ;\n        lx:externalPackage \"regex\" .\n  }\n  GRAPH <https://repolex.ai/r/rust-lang/regex/lsp/25a15e272b3ae5aee76b525902c2ab91b0d9e12e> {\n    ?e3 lx:resolutionSourceFile ?regexFile ;\n        lx:externalPackage \"aho-corasick\" .\n  }\n  GRAPH <https://repolex.ai/r/BurntSushi/aho-corasick/lsp/d84a5073d5108fce1774b375105dfdb13fe4e81c> {\n    ?e4 lx:resolutionSourceFile ?ahoFile ;\n        lx:externalPackage \"memchr\" ;\n        lx:callTarget ?memchrTarget .\n  }\n}\nLIMIT 20\n");
    reveal_strlit("GRAPH <");
    reveal_strlit("\nPREFIX lx: <https://repolex.ai/ontology/repolex/lsp-extension/>\nSELECT ?rlexFile ?actixFile ?regexFile ?ahoFile ?memchrTarget\nWHERE {\n  GRAPH <https://repolex.ai/r/repolex-ai/rlex/lsp/550a8e5a1a7b121bd970eff3e7575acd158f6bb8> {\n    ?e1 lx:resolutionSourceFile ?rlexFile ;\n        lx:externalPackage \"actix-web\" .\n  }\n  GRAPH <https://repolex.ai/r/actix/actix-web/lsp/5723cf486522d47aad26390cf5b02e95654ae225> {\n    ?e2 lx:resolutionSourceFile ?actixFile ;\n        lx:externalPackage \"regex\" .\n  }\n  GRAPH <https://repolex.ai/r/rust-lang/regex/lsp/25a15e272b3ae5aee76b525902c2ab91b0d9e12e> {\n    ?e3 lx:resolutionSourceFile ?regexFile ;\n        lx:externalPackage \"aho-corasick\" .\n  }\n  GRAPH <https://repolex.ai/r/BurntSushi/aho-corasick/lsp/d84a5073d5108fce1774b375105dfdb13fe4e81c> {\n    ?e4 lx:resolutionSourceFile ?ahoFile ;\n        lx:externalPackage \"memchr\" ;\n        lx:callTarget ?memchrTarget .\n  }\n}\nLIMIT 20\n");
    assert(text::is_ascii_seq(c));
    assert(queries::WEB_TO_SEARCH_QUERY@ =~= h + seq!['\n'] + (seq![' ', ' '] + c) + seq!['\n'] + t);
    assert(c.subrange(0, 7) =~= "GRAPH <"@);
    assert(!text::has_char(c, '\n'));
    scan_guard::lemma_query_with_graph_line(queries::WEB_TO_SEARCH_QUERY@, h, c, t);
}

proof fn lemma_anchored_actix_to_memchr_query()
    ensures
        scan_guard::bound_graph_spec(queries::ACTIX_TO_MEMCHR_QUERY@),
{
    let h = "\nPREFIX lx: <https://repolex.ai/ontology/repolex/lsp-extension/>\nSELECT ?actixFile ?regexFile ?ahoFile ?memchrTarget\nWHERE {"@;
    let c = "GRAPH <https://repolex.ai/r/actix/actix-web/lsp/5723cf486522d47aad26390cf5b02e95654ae225> {"@;
    let t = "    ?e1 lx:resolutionSourceFile ?actixFile ;\n        lx:externalPackage \"regex\" .\n  }\n  GRAPH <https://repolex.ai/r/rust-lang/regex/lsp/25a15e272b3ae5aee76b525902c2ab91b0d9e12e> {\n    ?e2 lx:resolutionSourceFile ?regexFile ;\n        lx:externalPackage \"aho-corasick\" .\n  }\n  GRAPH <https://repolex.ai/r/BurntSushi/aho-corasick/lsp/d84a5073d5108fce1774b375105dfdb13fe4e81c> {\n    ?e3 lx:resolutionSourceFile ?ahoFile ;\n        lx:externalPackage \"memchr\" ;\n        lx:callTarget ?memchrTarget .\n  }\n}\nLIMIT 20\n"@;
    reveal_strlit("\nPREFIX lx: <https://repolex.ai/ontology/repolex/lsp-extension/>\nSELECT ?actixFile ?regexFile ?ahoFile ?memchrTarget\nWHERE {");
    reveal_strlit("GRAPH <https://repolex.ai/r/actix/actix-web/lsp/5723cf486522d47aad26390cf5b02e95654ae225> {");
    reveal_strlit("    ?e1 lx:resolutionSourceFile ?actixFile ;\n        lx:externalPackage \"regex\" .\n  }\n  GRAPH <https://repolex.ai/r/rust-lang/regex/lsp/25a15e272b3ae5aee76b525902c2ab91b0d9e12e> {\n    ?e2 lx:resolutionSourceFile ?regexFile ;\n        lx:externalPackage \"aho-corasick\" .\n  }\n  GRAPH <https://repolex.ai/r/BurntSushi/aho-corasick/lsp/d84a5073d5108fce1774b375105dfdb13fe4e81c> {\n    ?e3 lx:resolutionSourceFile ?ahoFile ;\n        lx:externalPackage \"memchr\" ;\n        lx:callTarget ?memchrTarget .\n  }\n}\nLIMIT 20\n");
    reveal_strlit("GRAPH <");
    reveal_strlit("\nPREFIX lx: <https://repolex.ai/ontology/repolex/lsp-extension/>\nSELECT ?actixFile ?regexFile ?ahoFile ?memchrTarget\nWHERE {\n  GRAPH <https://repolex.ai/r/actix/actix-web/lsp/5723cf486522d47aad26390cf5b02e95654ae225> {\n    ?e1 lx:resolutionSourceFile ?actixFile ;\n        lx:externalPackage \"regex\" .\n  }\n  GRAPH <https://repolex.ai/r/rust-lang/regex/lsp/25a15e272b3ae5aee76b525902c2ab91b0d9e12e> {\n    ?e2 lx:resolutionSourceFile ?regexFile ;\n        lx:externalPackage \"aho-corasick\" .\n  }\n  GRAPH <https://repolex.ai/r/BurntSushi/aho-corasick/lsp/d84a5073d5108fce1774b375105dfdb13fe4e81c> {\n    ?e3 lx:resolutionSourceFile ?ahoFile ;\n        lx:externalPackage \"memchr\" ;\n        lx:callTarget ?memchrTarget .\n  }\n}\nLIMIT 20\n");
    assert(text::is_ascii_seq(c));
    assert(queries::ACTIX_TO_MEMCHR_QUERY@ =~= h + seq!['\n'] + (seq![' ', ' '] + c) + seq!['\n'] + t);
    assert(c.subrange(0, 7) =~= "GRAPH <"@);
    assert(!text::has_char(c, '\n'));
    scan_guard::lemma_query_with_graph_line(queries::ACTIX_TO_MEMCHR_QUERY@, h, c, t);
}

proof fn lemma_anchored_search_triad_query()
    ensures
        scan_guard::bound_graph_spec(queries::SEARCH_TRIAD_QUERY@),
{
    let h = "\nPREFIX lx: <https://repolex.ai/ontology/repolex/lsp-extension/>\nSELECT ?regexFile ?ahoFile ?memchrTarget\nWHERE {"@;
    let c = "GRAPH <https://repolex.ai/r/rust-lang/regex/lsp/25a15e272b3ae5aee76b525902c2ab91b0d9e12e> {"@;
    let t = "    ?e1 lx:resolutionSourceFile ?regexFile ;\n        lx:externalPackage \"aho-corasick\" .\n  }\n  GRAPH <https://repolex.ai/r/BurntSushi/aho-corasick/lsp/d84a5073d5108fce1774b375105dfdb13fe4e81c> {\n    ?e2 lx:resolutionSourceFile ?ahoFile ;\n        lx:externalPackage \"memchr\" ;\n        lx:callTarget ?memchrTarget .\n  }\n}\nLIMIT 20\n"@;
    reveal_strlit("\nPREFIX lx: <https://repolex.ai/ontology/repolex/lsp-extension/>\nSELECT ?regexFile ?ahoFile ?memchrTarget\nWHERE {");
    reveal_strlit("GRAPH <https://repolex.ai/r/rust-lang/regex/lsp/25a15e272b3ae5aee76b525902c2ab91b0d9e12e> {");
    reveal_strlit("    ?e1 lx:resolutionSourceFile ?regexFile ;\n        lx:externalPackage \"aho-corasick\" .\n  }\n  GRAPH <https://repolex.ai/r/BurntSushi/aho-corasick/lsp/d84a5073d5108fce1774b375105dfdb13fe4e81c> {\n    ?e2 lx:resolutionSourceFile ?ahoFile ;\n        lx:externalPackage \"memchr\" ;\n        lx:callTarget ?memchrTarget .\n  }\n}\nLIMIT 20\n");
    reveal_strlit("GRAPH <");
    reveal_strlit("\nPREFIX lx: <https://repolex.ai/ontology/repolex/lsp-extension/>\nSELECT ?regexFile ?ahoFile ?memchrTarget\nWHERE {\n  GRAPH <https://repolex.ai/r/rust-lang/regex/lsp/25a15e272b3ae5aee76b525902c2ab91b0d9e12e> {\n    ?e1 lx:resolutionSourceFile ?regexFile ;\n        lx:externalPackage \"aho-corasick\" .\n  }\n  GRAPH <https://repolex.ai/r/BurntSushi/aho-corasick/lsp/d84a5073d5108fce1774b375105dfdb13fe4e81c> {\n    ?e2 lx:resolutionSourceFile ?ahoFile ;\n        lx:externalPackage \"memchr\" ;\n        lx:callTarget ?memchrTarget .\n  }\n}\nLIMIT 20\n");
    assert(text::is_ascii_seq(c));
    assert(queries::SEARCH_TRIAD_QUERY@ =~= h + seq!['\n'] + (seq![' ', ' '] + c) + seq!['\n'] + t);
    assert(c.subrange(0, 7) =~= "GRAPH <"@);
    assert(!text::has_char(c, '\n'));
    scan_guard::lemma_query_with_graph_line(queries::SEARCH_TRIAD_QUERY@, h, c, t);
}

proof fn lemma_anchored_macro_diamond_query()
    ensures
        scan_guard::bound_graph_spec(queries::MACRO_DIAMOND_QUERY@),
{
    let h = "\nPREFIX lx: <https://repolex.ai/ontology/repolex/lsp-extension/>\nSELECT ?rlexFile ?axumFile ?synFile ?quoteFile ?pmTarget\nWHERE {"@;
    let c = "GRAPH <https://repolex.ai/r/repolex-ai/rlex/lsp/550a8e5a1a7b121bd970eff3e7575acd158f6bb8> {"@;
    let t = "    ?e1 lx:resolutionSourceFile ?rlexFile ;\n        lx:externalPackage \"axum\" .\n  }\n  GRAPH <https://repolex.ai/r/tokio-rs/axum/lsp/c59208c86fded335cd85e388030ad59347b0e5ae> {\n    ?e2 lx:resolutionSourceFile ?axumFile ;\n        lx:externalPackage \"syn\" ;\n        lx:callTarget ?synTarget .\n  }\n  BIND(REPLACE(REPLACE(STR(?synTarget), '^.*commit/[^/]+/', ''), '#.*$', '') AS ?synFile)\n  GRAPH <https://repolex.ai/r/dtolnay/syn/lsp/7bcb37cdb3399977658c8b52d2441d37e42e48f2> {\n    ?e3 lx:resolutionSourceFile ?synFile ;\n        lx:externalPackage \"quote\" ;\n        lx:callTarget ?quoteTarget .\n  }\n  BIND(REPLACE(REPLACE(STR(?quoteTarget), '^.*commit/[^/]+/', ''), '#.*$', '') AS ?quoteFile)\n  GRAPH <https://repolex.ai/r/dtolnay/quote/lsp/842ffde933fdd76cd1681a288bed136d8b95a97a> {\n    ?e4 lx:resolutionSourceFile ?quoteFile ;\n        lx:externalPackage \"proc-macro2\" ;\n        lx:callTarget ?pmTarget .\n  }\n}\nLIMIT 25\n"@;
    reveal_strlit("\nPREFIX lx: <https://repolex.ai/ontology/repolex/lsp-extension/>\nSELECT ?rlexFile ?axumFile ?synFile ?quoteFile ?pmTarget\nWHERE {");
    reveal_strlit("GRAPH <https://repolex.ai/r/repolex-ai/rlex/lsp/550a8e5a1a7b121bd970eff3e7575acd158f6bb8> {");
    reveal_strlit("    ?e1 lx:resolutionSourceFile ?rlexFile ;\n        lx:externalPackage \"axum\" .\n  }\n  GRAPH <https://repolex.ai/r/tokio-rs/axum/lsp/c59208c86fded335cd85e388030ad59347b0e5ae> {\n    ?e2 lx:resolutionSourceFile ?axumFile ;\n        lx:externalPackage \"syn\" ;\n        lx:callTarget ?synTarget .\n  }\n  BIND(REPLACE(REPLACE(STR(?synTarget), '^.*commit/[^/]+/', ''), '#.*$', '') AS ?synFile)\n  GRAPH <https://repolex.ai/r/dtolnay/syn/lsp/7bcb37cdb3399977658c8b52d2441d37e42e48f2> {\n    ?e3 lx:resolutionSourceFile ?synFile ;\n        lx:externalPackage \"quote\" ;\n        lx:callTarget ?quoteTarget .\n  }\n  BIND(REPLACE(REPLACE(STR(?quoteTarget), '^.*commit/[^/]+/', ''), '#.*$', '') AS ?quoteFile)\n  GRAPH <https://repolex.ai/r/dtolnay/quote/lsp/842ffde933fdd76cd1681a288bed136d8b95a97a> {\n    ?e4 lx:resolutionSourceFile ?quoteFile ;\n        lx:externalPackage \"proc-macro2\" ;\n        lx:callTarget ?pmTarget .\n  }\n}\nLIMIT 25\n");
    reveal_strlit("GRAPH <");
    reveal_strlit("\nPREFIX lx: <https://repolex.ai/ontology/repolex/lsp-extension/>\nSELECT ?rlexFile ?axumFile ?synFile ?quoteFile ?pmTarget\nWHERE {\n  GRAPH <https://repolex.ai/r/repolex-ai/rlex/lsp/550a8e5a1a7b121bd970eff3e7575acd158f6bb8> {\n    ?e1 lx:resolutionSourceFile ?rlexFile ;\n        lx:externalPackage \"axum\" .\n  }\n  GRAPH <https://repolex.ai/r/tokio-rs/axum/lsp/c59208c86fded335cd85e388030ad59347b0e5ae> {\n    ?e2 lx:resolutionSourceFile ?axumFile ;\n        lx:externalPackage \"syn\" ;\n        lx:callTarget ?synTarget .\n  }\n  BIND(REPLACE(REPLACE(STR(?synTarget), '^.*commit/[^/]+/', ''), '#.*$', '') AS ?synFile)\n  GRAPH <https://repolex.ai/r/dtolnay/syn/lsp/7bcb37cdb3399977658c8b52d2441d37e42e48f2> {\n    ?e3 lx:resolutionSourceFile ?synFile ;\n        lx:externalPackage \"quote\" ;\n        lx:callTarget ?quoteTarget .\n  }\n  BIND(REPLACE(REPLACE(STR(?quoteTarget), '^.*commit/[^/]+/', ''), '#.*$', '') AS ?quoteFile)\n  GRAPH <https://repolex.ai/r/dtolnay/quote/lsp/842ffde933fdd76cd1681a288bed136d8b95a97a> {\n    ?e4 lx:resolutionSourceFile ?quoteFile ;\n        lx:externalPackage \"proc-macro2\" ;\n        lx:callTarget ?pmTarget .\n  }\n}\nLIMIT 25\n");
    assert(text::is_ascii_seq(c));
    assert(queries::MACRO_DIAMOND_QUERY@ =~= h + seq!['\n'] + (seq![' ', ' '] + c) + seq!['\n'] + t);
    assert(c.subrange(0, 7) =~= "GRAPH <"@);
    assert(!text::has_char(c, '\n'));
    scan_guard::lemma_query_with_graph_line(queries::MACRO_DIAMOND_QUERY@, h, c, t);
}

proof fn lemma_anchored_axum_to_proc_macro_query()
    ensures
        scan_guard::bound_graph_spec(queries::AXUM_TO_PROC_MACRO_QUERY@),
{
    let h = "\nPREFIX lx: <https://repolex.ai/ontology/repolex/lsp-extension/>\nSELECT ?axumFile ?synFile ?quoteFile ?pmTarget\nWHERE {"@;
    let c = "GRAPH <https://repolex.ai/r/tokio-rs/axum/lsp/c59208c86fded335cd85e388030ad59347b0e5ae> {"@;
    let t = "    ?e1 lx:resolutionSourceFile ?axumFile ;\n        lx:externalPackage \"syn\" ;\n        lx:callTarget ?synTarget .\n  }\n  BIND(REPLACE(REPLACE(STR(?synTarget), '^.*commit/[^/]+/', ''), '#.*$', '') AS ?synFile)\n  GRAPH <https://repolex.ai/r/dtolnay/syn/lsp/7bcb37cdb3399977658c8b52d2441d37e42e48f2> {\n    ?e2 lx:resolutionSourceFile ?synFile ;\n        lx:externalPackage \"quote\" ;\n        lx:callTarget ?quoteTarget .\n  }\n  BIND(REPLACE(REPLACE(STR(?quoteTarget), '^.*commit/[^/]+/', ''), '#.*$', '') AS ?quoteFile)\n  GRAPH <https://repolex.ai/r/dtolnay/quote/lsp/842ffde933fdd76cd1681a288bed136d8b95a97a> {\n    ?e3 lx:resolutionSourceFile ?quoteFile ;\n        lx:externalPackage \"proc-macro2\" ;\n        lx:callTarget ?pmTarget .\n  }\n}\nLIMIT 25\n"@;
    reveal_strlit("\nPREFIX lx: <https://repolex.ai/ontology/repolex/lsp-extension/>\nSELECT ?axumFile ?synFile ?quoteFile ?pmTarget\nWHERE {");
    reveal_strlit("GRAPH <https://repolex.ai/r/tokio-rs/axum/lsp/c59208c86fded335cd85e388030ad59347b0e5ae> {");
    reveal_strlit("    ?e1 lx:resolutionSourceFile ?axumFile ;\n        lx:externalPackage \"syn\" ;\n        lx:callTarget ?synTarget .\n  }\n  BIND(REPLACE(REPLACE(STR(?synTarget), '^.*commit/[^/]+/', ''), '#.*$', '') AS ?synFile)\n  GRAPH <https://repolex.ai/r/dtolnay/syn/lsp/7bcb37cdb3399977658c8b52d2441d37e42e48f2> {\n    ?e2 lx:resolutionSourceFile ?synFile ;\n        lx:externalPackage \"quote\" ;\n        lx:callTarget ?quoteTarget .\n  }\n  BIND(REPLACE(REPLACE(STR(?quoteTarget), '^.*commit/[^/]+/', ''), '#.*$', '') AS ?quoteFile)\n  GRAPH <https://repolex.ai/r/dtolnay/quote/lsp/842ffde933fdd76cd1681a288bed136d8b95a97a> {\n    ?e3 lx:resolutionSourceFile ?quoteFile ;\n        lx:externalPackage \"proc-macro2\" ;\n        lx:callTarget ?pmTarget .\n  }\n}\nLIMIT 25\n");
    reveal_strlit("GRAPH <");
    reveal_strlit("\nPREFIX lx: <https://repolex.ai/ontology/repolex/lsp-extension/>\nSELECT ?axumFile ?synFile ?quoteFile ?pmTarget\nWHERE {\n  GRAPH <https://repolex.ai/r/tokio-rs/axum/lsp/c59208c86fded335cd85e388030ad59347b0e5ae> {\n    ?e1 lx:resolutionSourceFile ?axumFile ;\n        lx:externalPackage \"syn\" ;\n        lx:callTarget ?synTarget .\n  }\n  BIND(REPLACE(REPLACE(STR(?synTarget), '^.*commit/[^/]+/', ''), '#.*$', '') AS ?synFile)\n  GRAPH <https://repolex.ai/r/dtolnay/syn/lsp/7bcb37cdb3399977658c8b52d2441d37e42e48f2> {\n    ?e2 lx:resolutionSourceFile ?synFile ;\n        lx:externalPackage \"quote\" ;\n        lx:callTarget ?quoteTarget .\n  }\n  BIND(REPLACE(REPLACE(STR(?quoteTarget), '^.*commit/[^/]+/', ''), '#.*$', '') AS ?quoteFile)\n  GRAPH <https://repolex.ai/r/dtolnay/quote/lsp/842ffde933fdd76cd1681a288bed136d8b95a97a> {\n    ?e3 lx:resolutionSourceFile ?quoteFile ;\n        lx:externalPackage \"proc-macro2\" ;\n        lx:callTarget ?pmTarget .\n  }\n}\nLIMIT 25\n");
    assert(text::is_ascii_seq(c));
    assert(queries::AXUM_TO_PROC_MACRO_QUERY@ =~= h + seq!['\n'] + (seq![' ', ' '] + c) + seq!['\n'] + t);
    assert(c.subrange(0, 7) =~= "GRAPH <"@);
    assert(!text::has_char(c, '\n'));
    scan_guard::lemma_query_with_graph_line(queries::AXUM_TO_PROC_MACRO_QUERY@, h, c, t);
}

proof fn lemma_anchored_socket_to_libc_query()
    ensures
        scan_guard::bound_graph_spec(queries::SOCKET_TO_LIBC_QUERY@),
{
    let h = "\nPREFIX lx: <https://repolex.ai/ontology/repolex/lsp-extension/>\nSELECT ?socketFile ?libcTarget\nWHERE {"@;
    let c = "GRAPH <https://repolex.ai/r/rust-lang/socket2/lsp/239dd83a4ced08e514d2c38942aab99791119f0d> {"@;
    let t = "    ?e lx:resolutionSourceFile ?socketFile ;\n       lx:externalPackage \"libc\" ;\n       lx:callTarget ?libcTarget .\n  }\n}\nLIMIT 20\n"@;
    reveal_strlit("\nPREFIX lx: <https://repolex.ai/ontology/repolex/lsp-extension/>\nSELECT ?socketFile ?libcTarget\nWHERE {");
    reveal_strlit("GRAPH <https://repolex.ai/r/rust-lang/socket2/lsp/239dd83a4ced08e514d2c38942aab99791119f0d> {");
    reveal_strlit("    ?e lx:resolutionSourceFile ?socketFile ;\n       lx:externalPackage \"libc\" ;\n       lx:callTarget ?libcTarget .\n  }\n}\nLIMIT 20\n");
    reveal_strlit("GRAPH <");
    reveal_strlit("\nPREFIX lx: <https://repolex.ai/ontology/repolex/lsp-extension/>\nSELECT ?socketFile ?libcTarget\nWHERE {\n  GRAPH <https://repolex.ai/r/rust-lang/socket2/lsp/239dd83a4ced08e514d2c38942aab99791119f0d> {\n    ?e lx:resolutionSourceFile ?socketFile ;\n       lx:externalPackage \"libc\" ;\n       lx:callTarget ?libcTarget .\n  }\n}\nLIMIT 20\n");
    assert(text::is_ascii_seq(c));
    assert(queries::SOCKET_TO_LIBC_QUERY@ =~= h + seq!['\n'] + (seq![' ', ' '] + c) + seq!['\n'] + t);
    assert(c.subrange(0, 7) =~= "GRAPH <"@);
    assert(!text::has_char(c, '\n'));
    scan_guard::lemma_query_with_graph_line(queries::SOCKET_TO_LIBC_QUERY@, h, c, t);
}

proof fn lemma_anchored_git2_to_libc_query()
    ensures
        scan_guard::bound_graph_spec(queries::GIT2_TO_LIBC_QUERY@),
{
    let h = "\nPREFIX lx: <https://repolex.ai/ontology/repolex/lsp-extension/>\nSELECT ?gitFile ?libcTarget\nWHERE {"@;
    let c = "GRAPH <https://repolex.ai/r/rust-lang/git2-rs/lsp/b863968301f0e889fa04afc590d7e2c9a4100dc3> {"@;
    let t = "    ?e lx:resolutionSourceFile ?gitFile ;\n       lx:externalPackage \"libc\" ;\n       lx:callTarget ?libcTarget .\n  }\n}\nLIMIT 20\n"@;
    reveal_strlit("\nPREFIX lx: <https://repolex.ai/ontology/repolex/lsp-extension/>\nSELECT ?gitFile ?libcTarget\nWHERE {");
    reveal_strlit("GRAPH <https://repolex.ai/r/rust-lang/git2-rs/lsp/b863968301f0e889fa04afc590d7e2c9a4100dc3> {");
    reveal_strlit("    ?e lx:resolutionSourceFile ?gitFile ;\n       lx:externalPackage \"libc\" ;\n       lx:callTarget ?libcTarget .\n  }\n}\nLIMIT 20\n");
    reveal_strlit("GRAPH <");
    reveal_strlit("\nPREFIX lx: <https://repolex.ai/ontology/repolex/lsp-extension/>\nSELECT ?gitFile ?libcTarget\nWHERE {\n  GRAPH <https://repolex.ai/r/rust-lang/git2-rs/lsp/b863968301f0e889fa04afc590d7e2c9a4100dc3> {\n    ?e lx:resolutionSourceFile ?gitFile ;\n       lx:externalPackage \"libc\" ;\n       lx:callTarget ?libcTarget .\n  }\n}\nLIMIT 20\n");
    assert(text::is_ascii_seq(c));
    assert(queries::GIT2_TO_LIBC_QUERY@ =~= h + seq!['\n'] + (seq![' ', ' '] + c) + seq!['\n'] + t);
    assert(c.subrange(0, 7) =~= "GRAPH <"@);
    assert(!text::has_char(c, '\n'));
    scan_guard::lemma_query_with_graph_line(queries::GIT2_TO_LIBC_QUERY@, h, c, t);
}

proof fn lemma_anchored_compression(pkg: Seq<char>)
    ensures
        scan_guard::bound_graph_spec(compression_query(pkg)),
{
    let h = "\nPREFIX lx: <https://repolex.ai/ontology/repolex/lsp-extension/>\nSELECT ?flateFile ?target\nWHERE {"@;
    let c = "GRAPH <https://repolex.ai/r/rust-lang/flate2-rs/lsp/93c81772305a102f1ec846bd12713dd7bf1e3f04> {"@;
    let t = "    ?e lx:resolutionSourceFile ?flateFile ;\n       lx:externalPackage \""@ + pkg + queries::COMPRESSION_QUERY_TAIL@;
    reveal_strlit("\nPREFIX lx: <https://repolex.ai/ontology/repolex/lsp-extension/>\nSELECT ?flateFile ?target\nWHERE {");
    reveal_strlit("GRAPH <https://repolex.ai/r/rust-lang/flate2-rs/lsp/93c81772305a102f1ec846bd12713dd7bf1e3f04> {");
    reveal_strlit("    ?e lx:resolutionSourceFile ?flateFile ;\n       lx:externalPackage \"");
    reveal_strlit("GRAPH <");
    reveal_strlit("\nPREFIX lx: <https://repolex.ai/ontology/repolex/lsp-extension/>\nSELECT ?flateFile ?target\nWHERE {\n  GRAPH <https://repolex.ai/r/rust-lang/flate2-rs/lsp/93c81772305a102f1ec846bd12713dd7bf1e3f04> {\n    ?e lx:resolutionSourceFile ?flateFile ;\n       lx:externalPackage \"");
    assert(text::is_ascii_seq(c));
    assert(compression_query(pkg) =~= h + seq!['\n'] + (seq![' ', ' '] + c) + seq!['\n'] + t);
    assert(c.subrange(0, 7) =~= "GRAPH <"@);
    assert(!text::has_char(c, '\n'));
    scan_guard::lemma_query_with_graph_line(compression_query(pkg), h, c, t);
}

proof fn lemma_anchored_generic(g: Seq<char>, to: Seq<char>)
    requires
        text::is_ascii_seq(g),
        !text::has_char(g, '\n'),
    ensures
        scan_guard::bound_graph_spec(generic_query(g, to)),
{
    let h = "\nPREFIX lx: <https://repolex.ai/ontology/repolex/lsp-extension/>\nSELECT ?callerFile ?callTarget\nWHERE {"@;
    let c = "GRAPH <"@ + g + "> {"@;
    let t = "    ?e lx:resolutionSourceFile ?callerFile ;\n       lx:externalPackage ?pkg ;\n       lx:callTarget ?callTarget .\n    FILTER(LCASE(STR(?pkg)) = \""@ + to + queries::GENERIC_QUERY_PART2@ + to + queries::GENERIC_QUERY_PART3@ + to
        + queries::GENERIC_QUERY_PART4@;
    reveal_strlit("\nPREFIX lx: <https://repolex.ai/ontology/repolex/lsp-extension/>\nSELECT ?callerFile ?callTarget\nWHERE {");
    reveal_strlit("    ?e lx:resolutionSourceFile ?callerFile ;\n       lx:externalPackage ?pkg ;\n       lx:callTarget ?callTarget .\n    FILTER(LCASE(STR(?pkg)) = \"");
    reveal_strlit("GRAPH <");
    reveal_strlit("> {");
    reveal_strlit("\nPREFIX lx: <https://repolex.ai/ontology/repolex/lsp-extension/>\nSELECT ?callerFile ?callTarget\nWHERE {\n  GRAPH <");
    reveal_strlit("> {\n    ?e lx:resolutionSourceFile ?callerFile ;\n       lx:externalPackage ?pkg ;\n       lx:callTarget ?callTarget .\n    FILTER(LCASE(STR(?pkg)) = \"");
    assert(generic_query(g, to) =~= h + seq!['\n'] + (seq![' ', ' '] + c) + seq!['\n'] + t);
    assert(c.subrange(0, 7) =~= "GRAPH <"@);
    assert(c.last() == '{');
    assert(text::is_ascii_seq(c)) by {
        assert forall|i: int| 0 <= i < c.len() implies (#[trigger] c[i] as u32) < 128 by {
            if 7 <= i < 7 + g.len() {
                assert(c[i] == g[i - 7]);
            }
        }
    }
    text::lemma_has_char_concat("GRAPH <"@, g, '\n');
    text::lemma_has_char_concat("GRAPH <"@ + g, "> {"@, '\n');
    scan_guard::lemma_query_with_graph_line(generic_query(g, to), h, c, t);
}

proof fn lemma_generic_graphs_plain(from: Seq<char>)
    ensures
        generic_source_graph(from) matches Some(g) ==> text::is_ascii_seq(g) && !text::has_char(g, '\n'),
{
    reveal_strlit("https://repolex.ai/r/repolex-ai/rlex/lsp/550a8e5a1a7b121bd970eff3e7575acd158f6bb8");
    reveal_strlit("https://repolex.ai/r/actix/actix-web/lsp/5723cf486522d47aad26390cf5b02e95654ae225");
    reveal_strlit("https://repolex.ai/r/rust-lang/regex/lsp/25a15e272b3ae5aee76b525902c2ab91b0d9e12e");
    reveal_strlit("https://repolex.ai/r/BurntSushi/aho-corasick/lsp/d84a5073d5108fce1774b375105dfdb13fe4e81c");
    reveal_strlit("https://repolex.ai/r/tokio-rs/axum/lsp/c59208c86fded335cd85e388030ad59347b0e5ae");
    reveal_strlit("https://repolex.ai/r/dtolnay/syn/lsp/7bcb37cdb3399977658c8b52d2441d37e42e48f2");
    reveal_strlit("https://repolex.ai/r/dtolnay/quote/lsp/842ffde933fdd76cd1681a288bed136d8b95a97a");
    reveal_strlit("https://repolex.ai/r/rust-lang/socket2/lsp/239dd83a4ced08e514d2c38942aab99791119f0d");
    reveal_strlit("https://repolex.ai/r/rust-lang/flate2-rs/lsp/93c81772305a102f1ec846bd12713dd7bf1e3f04");
    assert(text::is_ascii_seq("https://repolex.ai/r/repolex-ai/rlex/lsp/550a8e5a1a7b121bd970eff3e7575acd158f6bb8"@) && !text::has_char("https://repolex.ai/r/repolex-ai/rlex/lsp/550a8e5a1a7b121bd970eff3e7575acd158f6bb8"@, '\n'));
    assert(text::is_ascii_seq("https://repolex.ai/r/actix/actix-web/lsp/5723cf486522d47aad26390cf5b02e95654ae225"@) && !text::has_char("https://repolex.ai/r/actix/actix-web/lsp/5723cf486522d47aad26390cf5b02e95654ae225"@, '\n'));
    assert(text::is_ascii_seq("https://repolex.ai/r/rust-lang/regex/lsp/25a15e272b3ae5aee76b525902c2ab91b0d9e12e"@) && !text::has_char("https://repolex.ai/r/rust-lang/regex/lsp/25a15e272b3ae5aee76b525902c2ab91b0d9e12e"@, '\n'));
    assert(text::is_ascii_seq("https://repolex.ai/r/BurntSushi/aho-corasick/lsp/d84a5073d5108fce1774b375105dfdb13fe4e81c"@) && !text::has_char("https://repolex.ai/r/BurntSushi/aho-corasick/lsp/d84a5073d5108fce1774b375105dfdb13fe4e81c"@, '\n'));
    assert(text::is_ascii_seq("https://repolex.ai/r/tokio-rs/axum/lsp/c59208c86fded335cd85e388030ad59347b0e5ae"@) && !text::has_char("https://repolex.ai/r/tokio-rs/axum/lsp/c59208c86fded335cd85e388030ad59347b0e5ae"@, '\n'));
    assert(text::is_ascii_seq("https://repolex.ai/r/dtolnay/syn/lsp/7bcb37cdb3399977658c8b52d2441d37e42e48f2"@) && !text::has_char("https://repolex.ai/r/dtolnay/syn/lsp/7bcb37cdb3399977658c8b52d2441d37e42e48f2"@, '\n'));
    assert(text::is_ascii_seq("https://repolex.ai/r/dtolnay/quote/lsp/842ffde933fdd76cd1681a288bed136d8b95a97a"@) && !text::has_char("https://repolex.ai/r/dtolnay/quote/lsp/842ffde933fdd76cd1681a288bed136d8b95a97a"@, '\n'));
    assert(text::is_ascii_seq("https://repolex.ai/r/rust-lang/socket2/lsp/239dd83a4ced08e514d2c38942aab99791119f0d"@) && !text::has_char("https://repolex.ai/r/rust-lang/socket2/lsp/239dd83a4ced08e514d2c38942aab99791119f0d"@, '\n'));
    assert(text::is_ascii_seq("https://repolex.ai/r/rust-lang/flate2-rs/lsp/93c81772305a102f1ec846bd12713dd7bf1e3f04"@) && !text::has_char("https://repolex.ai/r/rust-lang/flate2-rs/lsp/93c81772305a102f1ec846bd12713dd7bf1e3f04"@, '\n'));
}

/// Every query the calls command builds is anchored to a named graph
/// (`GRAPH <iri>` on a line of its own), so the scan guard never flags it,
/// whatever its filters or patterns.
pub proof fn law_built_calls_queries_anchored(from: Seq<char>, to: Seq<char>, explicit_hops: Option<usize>, wildcard: bool)
    requires
        query_plan(from, to, explicit_hops) is Ok,
    ensures
        scan_guard::bound_graph_spec(query_plan(from, to, explicit_hops)->Ok_0.0),
        scan_guard::lint_spec(
            query_plan(from, to, explicit_hops)->Ok_0.0,
            scan_guard::bound_graph_spec(query_plan(from, to, explicit_hops)->Ok_0.0),
            wildcard,
        ).len() == 0,
{
    reveal_strlit("miniz_oxide");
    reveal_strlit("crc32fast");
        lemma_anchored_web_to_search_query();
        lemma_anchored_actix_to_memchr_query();
        lemma_anchored_search_triad_query();
        lemma_anchored_macro_diamond_query();
        lemma_anchored_axum_to_proc_macro_query();
        lemma_anchored_socket_to_libc_query();
        lemma_anchored_git2_to_libc_query();
    lemma_anchored_compression("miniz_oxide"@);
    lemma_anchored_compression("crc32fast"@);
    lemma_generic_graphs_plain(from);
    match generic_source_graph(from) {
        Some(g) => lemma_anchored_generic(g, to),
        None => {},
    }
    let q = query_plan(from, to, explicit_hops)->Ok_0.0;
    scan_guard::law_anchored_query_is_clean(q, wildcard);
}

proof fn lemma_binds_in_macro_diamond_query()
    ensures
        text::contains_seq(queries::MACRO_DIAMOND_QUERY@, equivalence::file_bridge_bind_spec("?synTarget"@, "?synFile"@)),
        text::contains_seq(queries::MACRO_DIAMOND_QUERY@, equivalence::file_bridge_bind_spec("?quoteTarget"@, "?quoteFile"@)),
{
    reveal_strlit("\nPREFIX lx: <https://repolex.ai/ontology/repolex/lsp-extension/>\nSELECT ?rlexFile ?axumFile ?synFile ?quoteFile ?pmTarget\nWHERE {\n  GRAPH <https://repolex.ai/r/repolex-ai/rlex/lsp/550a8e5a1a7b121bd970eff3e7575acd158f6bb8> {\n    ?e1 lx:resolutionSourceFile ?rlexFile ;\n        lx:externalPackage \"axum\" .\n  }\n  GRAPH <https://repolex.ai/r/tokio-rs/axum/lsp/c59208c86fded335cd85e388030ad59347b0e5ae> {\n    ?e2 lx:resolutionSourceFile ?axumFile ;\n        lx:externalPackage \"syn\" ;\n        lx:callTarget ?synTarget .\n  }\n  BIND(REPLACE(REPLACE(STR(?synTarget), '^.*commit/[^/]+/', ''), '#.*$', '') AS ?synFile)\n  GRAPH <https://repolex.ai/r/dtolnay/syn/lsp/7bcb37cdb3399977658c8b52d2441d37e42e48f2> {\n    ?e3 lx:resolutionSourceFile ?synFile ;\n        lx:externalPackage \"quote\" ;\n        lx:callTarget ?quoteTarget .\n  }\n  BIND(REPLACE(REPLACE(STR(?quoteTarget), '^.*commit/[^/]+/', ''), '#.*$', '') AS ?quoteFile)\n  GRAPH <https://repolex.ai/r/dtolnay/quote/lsp/842ffde933fdd76cd1681a288bed136d8b95a97a> {\n    ?e4 lx:resolutionSourceFile ?quoteFile ;\n        lx:externalPackage \"proc-macro2\" ;\n        lx:callTarget ?pmTarget .\n  }\n}\nLIMIT 25\n");
    reveal_strlit("BIND(REPLACE(REPLACE(STR(");
    reveal_strlit("), '^.*commit/[^/]+/', ''), '#.*$', '') AS ");
    reveal_strlit(")");
    reveal_strlit("?synTarget");
    reveal_strlit("?synFile");
    reveal_strlit("?quoteTarget");
    reveal_strlit("?quoteFile");
    assert(queries::MACRO_DIAMOND_QUERY@.subrange(520, 607) =~= equivalence::file_bridge_bind_spec("?synTarget"@, "?synFile"@));
    assert(text::occurs_at(queries::MACRO_DIAMOND_QUERY@, equivalence::file_bridge_bind_spec("?synTarget"@, "?synFile"@), 520));
    assert(queries::MACRO_DIAMOND_QUERY@.subrange(821, 912) =~= equivalence::file_bridge_bind_spec("?quoteTarget"@, "?quoteFile"@));
    assert(text::occurs_at(queries::MACRO_DIAMOND_QUERY@, equivalence::file_bridge_bind_spec("?quoteTarget"@, "?quoteFile"@), 821));
}

proof fn lemma_binds_in_axum_to_proc_macro_query()
    ensures
        text::contains_seq(queries::AXUM_TO_PROC_MACRO_QUERY@, equivalence::file_bridge_bind_spec("?synTarget"@, "?synFile"@)),
        text::contains_seq(queries::AXUM_TO_PROC_MACRO_QUERY@, equivalence::file_bridge_bind_spec("?quoteTarget"@, "?quoteFile"@)),
{
    reveal_strlit("\nPREFIX lx: <https://repolex.ai/ontology/repolex/lsp-extension/>\nSELECT ?axumFile ?synFile ?quoteFile ?pmTarget\nWHERE {\n  GRAPH <https://repolex.ai/r/tokio-rs/axum/lsp/c59208c86fded335cd85e388030ad59347b0e5ae> {\n    ?e1 lx:resolutionSourceFile ?axumFile ;\n        lx:externalPackage \"syn\" ;\n        lx:callTarget ?synTarget .\n  }\n  BIND(REPLACE(REPLACE(STR(?synTarget), '^.*commit/[^/]+/', ''), '#.*$', '') AS ?synFile)\n  GRAPH <https://repolex.ai/r/dtolnay/syn/lsp/7bcb37cdb3399977658c8b52d2441d37e42e48f2> {\n    ?e2 lx:resolutionSourceFile ?synFile ;\n        lx:externalPackage \"quote\" ;\n        lx:callTarget ?quoteTarget .\n  }\n  BIND(REPLACE(REPLACE(STR(?quoteTarget), '^.*commit/[^/]+/', ''), '#.*$', '') AS ?quoteFile)\n  GRAPH <https://repolex.ai/r/dtolnay/quote/lsp/842ffde933fdd76cd1681a288bed136d8b95a97a> {\n    ?e3 lx:resolutionSourceFile ?quoteFile ;\n        lx:externalPackage \"proc-macro2\" ;\n        lx:callTarget ?pmTarget .\n  }\n}\nLIMIT 25\n");
    reveal_strlit("BIND(REPLACE(REPLACE(STR(");
    reveal_strlit("), '^.*commit/[^/]+/', ''), '#.*$', '') AS ");
    reveal_strlit(")");
    reveal_strlit("?synTarget");
    reveal_strlit("?synFile");
    reveal_strlit("?quoteTarget");
    reveal_strlit("?quoteFile");
    assert(queries::AXUM_TO_PROC_MACRO_QUERY@.subrange(332, 419) =~= equivalence::file_bridge_bind_spec("?synTarget"@, "?synFile"@));
    assert(text::occurs_at(queries::AXUM_TO_PROC_MACRO_QUERY@, equivalence::file_bridge_bind_spec("?synTarget"@, "?synFile"@), 332));
    assert(queries::AXUM_TO_PROC_MACRO_QUERY@.subrange(633, 724) =~= equivalence::file_bridge_bind_spec("?quoteTarget"@, "?quoteFile"@));
    assert(text::occurs_at(queries::AXUM_TO_PROC_MACRO_QUERY@, equivalence::file_bridge_bind_spec("?quoteTarget"@, "?quoteFile"@), 633));
}

/// The two cross-commit routes to `proc-macro2` (from `rlex` and from
/// `axum`) join their hops with the shared file-bridge `BIND`s: the query
/// holds the snippet `generate_file_bridge_bind` writes for `syn` and for
/// `quote`.
pub proof fn law_bridged_routes_hold_bind_snippets(from: Seq<char>, to: Seq<char>, explicit_hops: Option<usize>)
    requires
        from == "axum"@ || from == "rlex"@,
        to == "proc-macro2"@,
    ensures
        query_plan(from, to, explicit_hops) is Ok,
        text::contains_seq(
            query_plan(from, to, explicit_hops)->Ok_0.0,
            equivalence::file_bridge_bind_spec("?synTarget"@, "?synFile"@),
        ),
        text::contains_seq(
            query_plan(from, to, explicit_hops)->Ok_0.0,
            equivalence::file_bridge_bind_spec("?quoteTarget"@, "?quoteFile"@),
        ),
{
    reveal_strlit("axum");
    reveal_strlit("rlex");
    reveal_strlit("viz");
    reveal_strlit("proc-macro2");
    reveal_strlit("proc-macro");
    reveal_strlit("memchr");
    reveal_strlit("actix");
    reveal_strlit("regex");
    lemma_binds_in_macro_diamond_query();
    lemma_binds_in_axum_to_proc_macro_query();
    assert(text::occurs_at(to, "proc-macro"@, 0)) by {
        assert(to.subrange(0, 10) =~= "proc-macro"@);
    }
    assert(!text::contains_seq(to, "memchr"@)) by {
        assert forall|i: int| !text::occurs_at(to, "memchr"@, i) by {
            if text::occurs_at(to, "memchr"@, i) {
                assert(to.subrange(i, i + 6)[0] == to[i]);
                assert(to.subrange(i, i + 6)[1] == to[i + 1]);
            }
        }
    }
    if from == "rlex"@ {
        assert(text::occurs_at(from, "rlex"@, 0)) by {
            assert(from.subrange(0, 4) =~= "rlex"@);
        }
    } else {
        assert(text::occurs_at(from, "axum"@, 0)) by {
            assert(from.subrange(0, 4) =~= "axum"@);
        }
        assert(!text::contains_seq(from, "rlex"@)) by {
            assert forall|i: int| !text::occurs_at(from, "rlex"@, i) by {
                if text::occurs_at(from, "rlex"@, i) {
                    assert(from.subrange(i, i + 4)[0] == from[i]);
                }
            }
        }
    }
}

/// A `flate` source with a target naming `miniz` (and no route of its own:
/// no `memchr`, `proc-macro` or `libc`) is planned as one hop from flate2
/// to miniz_oxide, filtering miniz_oxide; naming `crc` without `miniz`, as
/// one hop to crc32fast, filtering crc32fast.
pub proof fn law_compression_route(from: Seq<char>, to: Seq<char>, explicit_hops: Option<usize>)
    requires
        text::contains_seq(from, "flate"@),
        text::contains_seq(to, "miniz"@) || text::contains_seq(to, "crc"@),
        !text::contains_seq(to, "memchr"@),
        !text::contains_seq(to, "proc-macro"@),
        !text::contains_seq(to, "libc"@),
    ensures
        text::contains_seq(to, "miniz"@) ==> query_plan(from, to, explicit_hops) == Ok::<
            (Seq<char>, Seq<Seq<char>>, nat),
            Seq<char>,
        >(
            (
                queries::COMPRESSION_QUERY_HEAD@ + "miniz_oxide"@ + queries::COMPRESSION_QUERY_TAIL@,
                seq!["flate2"@, "miniz_oxide"@],
                1,
            ),
        ),
        !text::contains_seq(to, "miniz"@) ==> query_plan(from, to, explicit_hops) == Ok::<
            (Seq<char>, Seq<Seq<char>>, nat),
            Seq<char>,
        >(
            (
                queries::COMPRESSION_QUERY_HEAD@ + "crc32fast"@ + queries::COMPRESSION_QUERY_TAIL@,
                seq!["flate2"@, "crc32fast"@],
                1,
            ),
        ),
{
}

} // verus!
