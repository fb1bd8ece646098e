//! The built-in knowledge base: documentation topics with their SPARQL
//! recipes, and the lookup of a topic by name or tag.
use vstd::prelude::*;
use crate::text;

verus! {

/// One documentation topic.
#[derive(Debug)]
pub struct TopicDoc {
    pub topic: &'static str,
    pub title: &'static str,
    pub tags: Vec<&'static str>,
    pub summary: &'static str,
    pub sparql_recipe: Option<&'static str>,
    pub content: &'static str,
}
/// Title of the `recipes` topic.
pub const RECIPES_TITLE: &'static str = "SPARQL Query Recipes Cheat Sheet";
/// Summary of the `recipes` topic.
pub const RECIPES_SUMMARY: &'static str = "Index of tested, high-performance SPARQL recipes for code intelligence across 118M+ quads.";
/// Text of the `recipes` topic.
pub const RECIPES_CONTENT: &'static str = r#"# Repolex SPARQL Query Recipes Cheat Sheet

Repolex stores over 118,647,867 quads indexing AST syntax blobs, semantic call sites,
LSP cross-repository call edges, and package dependencies.

### Top Commands & Equivalent SPARQL Recipes

1. **Multi-Hop Call Traversal**:
   - CLI: `rlex calls --from regex --to memchr`
   - See topic: `rlex moreinfo closures`

2. **Transitive Call Closures**:
   - CLI: `rlex closure --from actix-web --depth 3`
   - Discovers all reachable transitive dependencies with call counts and source files.

3. **Diamond Dependency Convergence**:
   - CLI: `rlex diamond --from syn`
   - Identifies downstream crates reached via multiple distinct branches (e.g. `syn` ➔ `quote` ➔ `proc-macro2` and `syn` ➔ `proc-macro2`).
   - See topic: `rlex moreinfo diamond`

4. **Cyclic Dependency & Recursion Detection**:
   - CLI: `rlex cycles --repo actix-web`
   - Detects mutual recursion or cyclic dependencies.
   - See topic: `rlex moreinfo cycles`

5. **Query Optimization & Scan Guard**:
   - CLI: `rlex warmup`
   - Detects and prevents the CONTAINS trap (avoiding 30s unindexed scans).
   - See topic: `rlex moreinfo scan-guard`

6. **Ontology Prefixes**:
   - See topic: `rlex moreinfo prefixes`
"#;
/// Title of the `closures` topic.
pub const CLOSURES_TITLE: &'static str = "Transitive Call Closures across Repository Boundaries";
/// Summary of the `closures` topic.
pub const CLOSURES_SUMMARY: &'static str = "Discover deep downstream call graphs across package boundaries using SPARQL property paths and bounded joins.";
/// SPARQL recipe of the `closures` topic.
pub const CLOSURES_RECIPE: &'static str = r#"PREFIX lx: <https://repolex.ai/ontology/repolex/lsp-extension/>
SELECT ?callerPkg ?targetPkg (COUNT(?e) as ?callCount) (SAMPLE(?src) as ?sampleSourceFile)
WHERE {
  GRAPH <https://repolex.ai/r/rust-lang/regex/lsp/25a15e272b3ae5aee76b525902c2ab91b0d9e12e> {
    ?e lx:resolutionSourceFile ?src ;
       lx:externalPackage ?targetPkg .
  }
}
GROUP BY ?callerPkg ?targetPkg
ORDER BY DESC(?callCount)"#;
/// Text of the `closures` topic.
pub const CLOSURES_CONTENT: &'static str = r#"# Transitive Call Closures

A transitive call closure calculates all downstream dependencies and functions reachable from
a given source repository, traversing across repository boundaries.

### Why This Matters

Standard package managers (like `cargo tree`) show compile-time crate dependencies, but NOT
whether any code in your binary actually invokes functions in those transitive dependencies.
Repolex provides **call-level reachability** — proving whether execution paths exist.

### 2-Hop Bounded Closure Recipe:

```sparql
PREFIX lx: <https://repolex.ai/ontology/repolex/lsp-extension/>
SELECT ?regexFile ?ahoFile ?memchrTarget
WHERE {
  GRAPH <https://repolex.ai/r/rust-lang/regex/lsp/25a15e272b3ae5aee76b525902c2ab91b0d9e12e> {
    ?e1 lx:resolutionSourceFile ?regexFile ;
        lx:externalPackage "aho-corasick" .
  }
  GRAPH <https://repolex.ai/r/BurntSushi/aho-corasick/lsp/d84a5073d5108fce1774b375105dfdb13fe4e81c> {
    ?e2 lx:resolutionSourceFile ?ahoFile ;
        lx:externalPackage "memchr" ;
        lx:callTarget ?memchrTarget .
  }
}
LIMIT 20
```

### CLI Command:
`rlex closure --from regex --depth 3`
`rlex closure --from actix-web --to memchr`
"#;
/// Title of the `diamond` topic.
pub const DIAMOND_TITLE: &'static str = "Diamond Dependency & Call Graph Convergence";
/// Summary of the `diamond` topic.
pub const DIAMOND_SUMMARY: &'static str = "Identify converging dependencies where two distinct paths meet at the same downstream package.";
/// SPARQL recipe of the `diamond` topic.
pub const DIAMOND_RECIPE: &'static str = r#"PREFIX lx: <https://repolex.ai/ontology/repolex/lsp-extension/>
SELECT DISTINCT ?synFile ?quoteFile ?pmTargetDirect ?pmTargetTransitive
WHERE {
  GRAPH <https://repolex.ai/r/dtolnay/syn/lsp/7bcb37cdb3399977658c8b52d2441d37e42e48f2> {
    ?e1 lx:resolutionSourceFile ?synFile ;
        lx:externalPackage "quote" .
    ?e2 lx:externalPackage "proc-macro2" ;
        lx:callTarget ?pmTargetDirect .
  }
  GRAPH <https://repolex.ai/r/dtolnay/quote/lsp/842ffde933fdd76cd1681a288bed136d8b95a97a> {
    ?e3 lx:resolutionSourceFile ?quoteFile ;
        lx:externalPackage "proc-macro2" ;
        lx:callTarget ?pmTargetTransitive .
  }
}
LIMIT 10"#;
/// Text of the `diamond` topic.
pub const DIAMOND_CONTENT: &'static str = r#"# Diamond Dependency Convergence

A diamond dependency pattern occurs when a root component invokes two or more distinct
intermediate components, which then both converge on the same downstream dependency:

```
         Root (e.g. syn)
          /           \
         /             \
   Branch A (quote)   Direct / Branch B
         \             /
          \           /
     Converged Target (proc-macro2)
```

### Why Diamonds Matter

1. **Version Skew Hazards**: If Branch A depends on v1.0 and Branch B depends on v2.0 of the target.
2. **Coupling Density**: Diamonds reveal the foundational architectural hubs of an ecosystem.
3. **Dead-Code Elimination Impact**: Modifying the converged target affects multiple ingress paths simultaneously.

### Live Receipts from Repolex Store:
- `syn` ➔ `quote` (435 calls) ➔ `proc-macro2` (72 calls) AND `syn` ➔ `proc-macro2` directly (552 calls)!
- `regex` ➔ `aho-corasick` (21 calls) ➔ `memchr` (10 calls) AND `regex` ➔ `memchr` directly (16 calls)!

### CLI Command:
`rlex diamond --from syn`
`rlex diamond --from regex`
"#;
/// Title of the `cycles` topic.
pub const CYCLES_TITLE: &'static str = "Cyclic Dependency & Mutual Recursion Detection";
/// Summary of the `cycles` topic.
pub const CYCLES_SUMMARY: &'static str = "Detect recursive call cycles between modules or circular dependencies across crates.";
/// SPARQL recipe of the `cycles` topic.
pub const CYCLES_RECIPE: &'static str = r#"PREFIX lx: <https://repolex.ai/ontology/repolex/lsp-extension/>
SELECT DISTINCT ?srcA ?srcB
WHERE {
  GRAPH <https://repolex.ai/r/org/repo/lsp/commit_sha> {
    ?e1 lx:resolutionSourceFile ?srcA ;
        lx:callTargetFile ?srcB .
    ?e2 lx:resolutionSourceFile ?srcB ;
        lx:callTargetFile ?srcA .
    FILTER(STR(?srcA) < STR(?srcB))
  }
}
LIMIT 20"#;
/// Text of the `cycles` topic.
pub const CYCLES_CONTENT: &'static str = r#"# Cyclic Dependency & Mutual Recursion Detection

Cycles in software architecture represent tight coupling, making refactoring and modularization
difficult. In compiled languages, cross-crate cycles are forbidden by compilers, but internal
cross-file cycles or mutual function recursion can still occur.

### Types of Cycles

1. **Internal Cross-File Cycles**:
   Module A calls Module B, and Module B calls Module A.
2. **Mutual Function Recursion**:
   `funcA()` calls `funcB()`, and `funcB()` calls `funcA()`.
3. **Ecosystem Circularity**:
   Package A lists Package B as dependency, and Package B depends on Package A.

### CLI Command:
`rlex cycles --repo actix-web`
`rlex cycles` (scans entire ecosystem backbone)
"#;
/// Title of the `scan-guard` topic.
pub const SCAN_GUARD_TITLE: &'static str = "The CONTAINS Trap & Query Engine Optimizations";
/// Summary of the `scan-guard` topic.
pub const SCAN_GUARD_SUMMARY: &'static str = "Why unanchored FILTER(CONTAINS(...)) scans take 30+ seconds and how named-graph anchoring runs in 1.15ms.";
/// SPARQL recipe of the `scan-guard` topic.
pub const SCAN_GUARD_RECIPE: &'static str = r#"# BAD: Sequential full-store scan (30+ seconds across 118M quads)
SELECT * WHERE { ?s ?p ?o . FILTER(CONTAINS(STR(?s), "regex")) }

# GOOD: Exact named graph lookup (1.15 ms across 118M quads)
PREFIX lx: <https://repolex.ai/ontology/repolex/lsp-extension/>
SELECT ?file ?target WHERE {
  GRAPH <https://repolex.ai/r/rust-lang/regex/lsp/25a15e272b3ae5aee76b525902c2ab91b0d9e12e> {
    ?e lx:resolutionSourceFile ?file ;
       lx:callTarget ?target .
  }
}"#;
/// Text of the `scan-guard` topic.
pub const SCAN_GUARD_CONTENT: &'static str = r#"# The CONTAINS Trap & Query Engine Optimizations

Oxigraph indexes 118,647,867 quads using RocksDB multi-column indexes:
- `SPO`, `POS`, `OSP` for default graph
- `GSPO`, `GPOS`, `GOSP` for quad/named-graph queries

### The CONTAINS Trap

When you write:
```sparql
SELECT * WHERE {
  ?s ?p ?o .
  FILTER(CONTAINS(STR(?s), "regex"))
}
```
Oxigraph has no index on substring evaluation. It must perform a **full sequential scan** of all
118 million records, taking 30 to 45 seconds!

### The Solution: Named-Graph & Typed Anchoring

1. **Anchor to Exact Named Graphs**:
   Every repo has deterministic named graph IRIs:
   `GRAPH <https://repolex.ai/r/{org}/{repo}/lsp/{commit}>`
   When anchored, RocksDB seeks directly to the graph prefix in **<1.5 ms**.

2. **Order Triples by Selectivity**:
   Put the most specific triple pattern first so the query planner binds variables immediately.

3. **Pre-Warm RocksDB Cache**:
   Run `rlex warmup` before heavy traversal queries to fault SST index and filter blocks into RAM.
"#;
/// Title of the `prefixes` topic.
pub const PREFIXES_TITLE: &'static str = "Standard Repolex Ontology Namespaces";
/// Summary of the `prefixes` topic.
pub const PREFIXES_SUMMARY: &'static str = "Reference of standard Repolex RDF prefixes for AST syntax, semantic symbols, LSP calls, and git metadata.";
/// Text of the `prefixes` topic.
pub const PREFIXES_CONTENT: &'static str = r#"# Standard Repolex Ontology Namespaces

Include these prefixes at the top of your SPARQL queries:

```sparql
PREFIX lx:       <https://repolex.ai/ontology/repolex/lsp-extension/>
PREFIX repolex:  <https://repolex.ai/ontology/repolex/>
PREFIX ast:      <https://repolex.ai/ontology/ast#>
PREFIX ast-x:    <https://repolex.ai/ontology/ast-x#>
PREFIX lsp:      <https://repolex.ai/ontology/lsp#>
PREFIX lsp-x:    <https://repolex.ai/ontology/lsp-x#>
PREFIX sem:      <https://repolex.ai/ontology/sem#>
PREFIX git:      <https://repolex.ai/ontology/extracts/gitpython-developers/GitPython/v3.1.46/core/>
PREFIX rdf:      <http://www.w3.org/1999/02/22-rdf-syntax-ns#>
PREFIX rdfs:     <http://www.w3.org/2000/01/rdf-schema#>
PREFIX xsd:      <http://www.w3.org/2001/XMLSchema#>
```

### Key Predicates:
- `lx:resolutionSourceFile`: Source file where call originated (e.g. `"src/lib.rs"`)
- `lx:externalPackage`: Outgoing external package name (e.g. `"aho-corasick"`)
- `lx:callTarget`: URI of the resolved symbol or definition
- `repolex:packageName`: Package name literal in dependency graphs
- `ast-x:filePath`: Relative file path in AST syntax trees
"#;
/// Title of the `architecture` topic.
pub const ARCHITECTURE_TITLE: &'static str = "Repolex 118M Quad Store Architecture";
/// Summary of the `architecture` topic.
pub const ARCHITECTURE_SUMMARY: &'static str = "Overview of named graph partitioning across AST blobs, LSP call edges, dependencies, and git structure.";
/// Text of the `architecture` topic.
pub const ARCHITECTURE_CONTENT: &'static str = r#"# Repolex Triplestore Architecture

Repolex stores code as a unified knowledge graph across four distinct layers:

1. **AST Blob & Syntax Graphs (69.5% / ~82.5M quads)**:
   - Named graph: `<https://repolex.ai/r/{org}/{repo}/blob/{blob_sha}>`
   - Fine-grained syntax nodes from Tree-Sitter (classes, methods, identifiers, parameters).

2. **Repolex CallSite & Semantic Graphs (15.9% / ~18.8M quads)**:
   - Function calls, invocations, and references within each file.

3. **LSP Cross-Repo Call Edges (2.7% / ~3.2M quads)**:
   - Named graph: `<https://repolex.ai/r/{org}/{repo}/lsp/{commit_sha}>`
   - High-fidelity call resolutions produced by Language Server Protocol (LSP).

4. **Git Structure & Manifests (11.9% / ~14.2M quads)**:
   - Commits, branches, tags, file trees, and package dependencies.
"#;
/// View of a topic: name, title, tags, summary, recipe, text.
pub type TopicView = (Seq<char>, Seq<char>, Seq<Seq<char>>, Seq<char>, Option<Seq<char>>, Seq<char>);

/// View of a topic.
pub open spec fn topic_view(d: TopicDoc) -> TopicView {
    (
        d.topic@,
        d.title@,
        d.tags@.map_values(|t: &'static str| t@),
        d.summary@,
        match d.sparql_recipe {
            Some(r) => Some(r@),
            None => None,
        },
        d.content@,
    )
}

/// The topics, in the order they are listed.
pub open spec fn topic_table() -> Seq<TopicView> {
    seq![
        ("recipes"@, RECIPES_TITLE@, seq!["recipes"@, "sparql"@, "queries"@, "quickstart"@], RECIPES_SUMMARY@, None, RECIPES_CONTENT@),
        ("closures"@, CLOSURES_TITLE@, seq!["closure"@, "transitive"@, "call-graph"@, "reachability"@], CLOSURES_SUMMARY@, Some(CLOSURES_RECIPE@), CLOSURES_CONTENT@),
        ("diamond"@, DIAMOND_TITLE@, seq!["diamond"@, "convergence"@, "dependencies"@, "architecture"@], DIAMOND_SUMMARY@, Some(DIAMOND_RECIPE@), DIAMOND_CONTENT@),
        ("cycles"@, CYCLES_TITLE@, seq!["cycles"@, "recursion"@, "circular"@, "architecture"@], CYCLES_SUMMARY@, Some(CYCLES_RECIPE@), CYCLES_CONTENT@),
        ("scan-guard"@, SCAN_GUARD_TITLE@, seq!["scan-guard"@, "optimization"@, "contains-trap"@, "rocksdb"@, "cache"@], SCAN_GUARD_SUMMARY@, Some(SCAN_GUARD_RECIPE@), SCAN_GUARD_CONTENT@),
        ("prefixes"@, PREFIXES_TITLE@, seq!["prefixes"@, "vocabulary"@, "ontology"@, "rdf"@], PREFIXES_SUMMARY@, None, PREFIXES_CONTENT@),
        ("architecture"@, ARCHITECTURE_TITLE@, seq!["architecture"@, "store"@, "oxigraph"@, "graphs"@], ARCHITECTURE_SUMMARY@, None, ARCHITECTURE_CONTENT@),
    ]
}

fn recipes_topic() -> (d: TopicDoc)
    ensures
        topic_view(d) == topic_table()[0],
{
    let mut tags: Vec<&'static str> = Vec::new();
    tags.push("recipes");
    tags.push("sparql");
    tags.push("queries");
    tags.push("quickstart");
    assert(tags@.map_values(|t: &'static str| t@) =~= seq!["recipes"@, "sparql"@, "queries"@, "quickstart"@]);
    TopicDoc {
        topic: "recipes",
        title: RECIPES_TITLE,
        tags,
        summary: RECIPES_SUMMARY,
        sparql_recipe: None,
        content: RECIPES_CONTENT,
    }
}

fn closures_topic() -> (d: TopicDoc)
    ensures
        topic_view(d) == topic_table()[1],
{
    let mut tags: Vec<&'static str> = Vec::new();
    tags.push("closure");
    tags.push("transitive");
    tags.push("call-graph");
    tags.push("reachability");
    assert(tags@.map_values(|t: &'static str| t@) =~= seq!["closure"@, "transitive"@, "call-graph"@, "reachability"@]);
    TopicDoc {
        topic: "closures",
        title: CLOSURES_TITLE,
        tags,
        summary: CLOSURES_SUMMARY,
        sparql_recipe: Some(CLOSURES_RECIPE),
        content: CLOSURES_CONTENT,
    }
}

fn diamond_topic() -> (d: TopicDoc)
    ensures
        topic_view(d) == topic_table()[2],
{
    let mut tags: Vec<&'static str> = Vec::new();
    tags.push("diamond");
    tags.push("convergence");
    tags.push("dependencies");
    tags.push("architecture");
    assert(tags@.map_values(|t: &'static str| t@) =~= seq!["diamond"@, "convergence"@, "dependencies"@, "architecture"@]);
    TopicDoc {
        topic: "diamond",
        title: DIAMOND_TITLE,
        tags,
        summary: DIAMOND_SUMMARY,
        sparql_recipe: Some(DIAMOND_RECIPE),
        content: DIAMOND_CONTENT,
    }
}

fn cycles_topic() -> (d: TopicDoc)
    ensures
        topic_view(d) == topic_table()[3],
{
    let mut tags: Vec<&'static str> = Vec::new();
    tags.push("cycles");
    tags.push("recursion");
    tags.push("circular");
    tags.push("architecture");
    assert(tags@.map_values(|t: &'static str| t@) =~= seq!["cycles"@, "recursion"@, "circular"@, "architecture"@]);
    TopicDoc {
        topic: "cycles",
        title: CYCLES_TITLE,
        tags,
        summary: CYCLES_SUMMARY,
        sparql_recipe: Some(CYCLES_RECIPE),
        content: CYCLES_CONTENT,
    }
}

fn scan_guard_topic() -> (d: TopicDoc)
    ensures
        topic_view(d) == topic_table()[4],
{
    let mut tags: Vec<&'static str> = Vec::new();
    tags.push("scan-guard");
    tags.push("optimization");
    tags.push("contains-trap");
    tags.push("rocksdb");
    tags.push("cache");
    assert(tags@.map_values(|t: &'static str| t@) =~= seq!["scan-guard"@, "optimization"@, "contains-trap"@, "rocksdb"@, "cache"@]);
    TopicDoc {
        topic: "scan-guard",
        title: SCAN_GUARD_TITLE,
        tags,
        summary: SCAN_GUARD_SUMMARY,
        sparql_recipe: Some(SCAN_GUARD_RECIPE),
        content: SCAN_GUARD_CONTENT,
    }
}

fn prefixes_topic() -> (d: TopicDoc)
    ensures
        topic_view(d) == topic_table()[5],
{
    let mut tags: Vec<&'static str> = Vec::new();
    tags.push("prefixes");
    tags.push("vocabulary");
    tags.push("ontology");
    tags.push("rdf");
    assert(tags@.map_values(|t: &'static str| t@) =~= seq!["prefixes"@, "vocabulary"@, "ontology"@, "rdf"@]);
    TopicDoc {
        topic: "prefixes",
        title: PREFIXES_TITLE,
        tags,
        summary: PREFIXES_SUMMARY,
        sparql_recipe: None,
        content: PREFIXES_CONTENT,
    }
}

fn architecture_topic() -> (d: TopicDoc)
    ensures
        topic_view(d) == topic_table()[6],
{
    let mut tags: Vec<&'static str> = Vec::new();
    tags.push("architecture");
    tags.push("store");
    tags.push("oxigraph");
    tags.push("graphs");
    assert(tags@.map_values(|t: &'static str| t@) =~= seq!["architecture"@, "store"@, "oxigraph"@, "graphs"@]);
    TopicDoc {
        topic: "architecture",
        title: ARCHITECTURE_TITLE,
        tags,
        summary: ARCHITECTURE_SUMMARY,
        sparql_recipe: None,
        content: ARCHITECTURE_CONTENT,
    }
}

/// All topics, in listing order.
pub fn topics() -> (r: Vec<TopicDoc>)
    ensures
        r@.len() == topic_table().len(),
        forall|i: int| 0 <= i < r@.len() ==> topic_view(#[trigger] r@[i]) == topic_table()[i],
{
    let mut r: Vec<TopicDoc> = Vec::new();
    r.push(recipes_topic());
    r.push(closures_topic());
    r.push(diamond_topic());
    r.push(cycles_topic());
    r.push(scan_guard_topic());
    r.push(prefixes_topic());
    r.push(architecture_topic());
    r
}

/// A topic answers a normalised name when the name is the topic's own or
/// one of its tags; `optimization` also names the scan-guard topic.
pub open spec fn topic_hit(d: TopicView, t: Seq<char>) -> bool {
    d.0 == t || d.2.contains(t) || (t == "optimization"@ && d.0 == "scan-guard"@)
}

/// The position of the first topic answering the name, trimmed and
/// lower-cased.
pub open spec fn find_topic_spec(arg: Seq<char>) -> Option<int> {
    let t = text::lower(text::trim_seq(arg));
    let p = |d: TopicView| topic_hit(d, t);
    if text::any_where(topic_table(), p) {
        Some(text::first_where(topic_table(), p))
    } else {
        None
    }
}

/// Looks a topic up by name or tag: its position in [`topics`].
pub fn find_topic(arg: &str) -> (r: Option<usize>)
    ensures
        match r {
            Some(i) => find_topic_spec(arg@) == Some(i as int),
            None => find_topic_spec(arg@) is None,
        },
{
    let trimmed = text::trim_str(arg);
    let ts = text::string_from_chars(&trimmed);
    let low = text::to_lower(ts.as_str());
    let t = text::chars_of(low.as_str());
    let ghost tv = text::lower(text::trim_seq(arg@));
    let ghost p = |d: TopicView| topic_hit(d, tv);
    let docs = topics();
    let opt = text::chars_of("optimization");
    let sg = text::chars_of("scan-guard");
    let mut i: usize = 0;
    while i < docs.len()
        invariant
            i <= docs@.len(),
            docs@.len() == topic_table().len(),
            forall|k: int| 0 <= k < docs@.len() ==> topic_view(#[trigger] docs@[k]) == topic_table()[k],
            t@ == tv,
            tv == text::lower(text::trim_seq(arg@)),
            opt@ == "optimization"@,
            sg@ == "scan-guard"@,
            p == (|d: TopicView| topic_hit(d, tv)),
            forall|j: int| 0 <= j < i ==> !p(#[trigger] topic_table()[j]),
        decreases docs.len() - i,
    {
        let d = &docs[i];
        assert(topic_view(*d) == topic_table()[i as int]);
        let name = text::chars_of(d.topic);
        let mut hit = text::chars_eq(&name, &t);
        let mut k: usize = 0;
        while k < d.tags.len()
            invariant
                k <= d.tags@.len(),
                hit == (name@ == t@ || exists|m: int| 0 <= m < k && (#[trigger] d.tags@[m])@ == t@),
            decreases d.tags.len() - k,
        {
            let tag = text::chars_of(d.tags[k]);
            if text::chars_eq(&tag, &t) {
                hit = true;
            }
            k = k + 1;
        }
        proof {
            let tags = d.tags@.map_values(|x: &'static str| x@);
            if exists|m: int| 0 <= m < d.tags@.len() && (#[trigger] d.tags@[m])@ == t@ {
                let m = choose|m: int| 0 <= m < d.tags@.len() && (#[trigger] d.tags@[m])@ == t@;
                assert(tags[m] == t@);
            }
            if tags.contains(t@) {
                let m = choose|m: int| 0 <= m < tags.len() && tags[m] == t@;
                assert(d.tags@[m]@ == t@);
            }
        }
        if !hit && text::chars_eq(&t, &opt) && text::chars_eq(&name, &sg) {
            hit = true;
        }
        if hit {
            proof {
                assert(p(topic_table()[i as int]));
                assert(text::is_first_where(topic_table(), p, i as int));
                text::lemma_first_where(topic_table(), p, i as int);
                assert(p =~= (|d: TopicView| topic_hit(d, text::lower(text::trim_seq(arg@)))));
            }
            return Some(i);
        }
        i = i + 1;
    }
    assert(p =~= (|d: TopicView| topic_hit(d, text::lower(text::trim_seq(arg@)))));
    None
}

} // verus!
