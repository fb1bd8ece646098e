//! SPARQL texts of the call-graph traversals.
use vstd::prelude::*;

verus! {

/// Four hops: rlex ➔ actix-web ➔ regex ➔ aho-corasick ➔ memchr.
pub const WEB_TO_SEARCH_QUERY: &'static str = "\nPREFIX lx: <https://repolex.ai/ontology/repolex/lsp-extension/>\nSELECT ?rlexFile ?actixFile ?regexFile ?ahoFile ?memchrTarget\nWHERE {\n  GRAPH <https://repolex.ai/r/repolex-ai/rlex/lsp/550a8e5a1a7b121bd970eff3e7575acd158f6bb8> {\n    ?e1 lx:resolutionSourceFile ?rlexFile ;\n        lx:externalPackage \"actix-web\" .\n  }\n  GRAPH <https://repolex.ai/r/actix/actix-web/lsp/5723cf486522d47aad26390cf5b02e95654ae225> {\n    ?e2 lx:resolutionSourceFile ?actixFile ;\n        lx:externalPackage \"regex\" .\n  }\n  GRAPH <https://repolex.ai/r/rust-lang/regex/lsp/25a15e272b3ae5aee76b525902c2ab91b0d9e12e> {\n    ?e3 lx:resolutionSourceFile ?regexFile ;\n        lx:externalPackage \"aho-corasick\" .\n  }\n  GRAPH <https://repolex.ai/r/BurntSushi/aho-corasick/lsp/d84a5073d5108fce1774b375105dfdb13fe4e81c> {\n    ?e4 lx:resolutionSourceFile ?ahoFile ;\n        lx:externalPackage \"memchr\" ;\n        lx:callTarget ?memchrTarget .\n  }\n}\nLIMIT 20\n";

/// Three hops: actix-web ➔ regex ➔ aho-corasick ➔ memchr.
pub const ACTIX_TO_MEMCHR_QUERY: &'static str = "\nPREFIX lx: <https://repolex.ai/ontology/repolex/lsp-extension/>\nSELECT ?actixFile ?regexFile ?ahoFile ?memchrTarget\nWHERE {\n  GRAPH <https://repolex.ai/r/actix/actix-web/lsp/5723cf486522d47aad26390cf5b02e95654ae225> {\n    ?e1 lx:resolutionSourceFile ?actixFile ;\n        lx:externalPackage \"regex\" .\n  }\n  GRAPH <https://repolex.ai/r/rust-lang/regex/lsp/25a15e272b3ae5aee76b525902c2ab91b0d9e12e> {\n    ?e2 lx:resolutionSourceFile ?regexFile ;\n        lx:externalPackage \"aho-corasick\" .\n  }\n  GRAPH <https://repolex.ai/r/BurntSushi/aho-corasick/lsp/d84a5073d5108fce1774b375105dfdb13fe4e81c> {\n    ?e3 lx:resolutionSourceFile ?ahoFile ;\n        lx:externalPackage \"memchr\" ;\n        lx:callTarget ?memchrTarget .\n  }\n}\nLIMIT 20\n";

/// Two hops: regex ➔ aho-corasick ➔ memchr.
pub const SEARCH_TRIAD_QUERY: &'static str = "\nPREFIX lx: <https://repolex.ai/ontology/repolex/lsp-extension/>\nSELECT ?regexFile ?ahoFile ?memchrTarget\nWHERE {\n  GRAPH <https://repolex.ai/r/rust-lang/regex/lsp/25a15e272b3ae5aee76b525902c2ab91b0d9e12e> {\n    ?e1 lx:resolutionSourceFile ?regexFile ;\n        lx:externalPackage \"aho-corasick\" .\n  }\n  GRAPH <https://repolex.ai/r/BurntSushi/aho-corasick/lsp/d84a5073d5108fce1774b375105dfdb13fe4e81c> {\n    ?e2 lx:resolutionSourceFile ?ahoFile ;\n        lx:externalPackage \"memchr\" ;\n        lx:callTarget ?memchrTarget .\n  }\n}\nLIMIT 20\n";

/// Four hops: rlex ➔ axum ➔ syn ➔ quote ➔ proc-macro2, joined on the files that call targets point at.
pub const MACRO_DIAMOND_QUERY: &'static str = "\nPREFIX lx: <https://repolex.ai/ontology/repolex/lsp-extension/>\nSELECT ?rlexFile ?axumFile ?synFile ?quoteFile ?pmTarget\nWHERE {\n  GRAPH <https://repolex.ai/r/repolex-ai/rlex/lsp/550a8e5a1a7b121bd970eff3e7575acd158f6bb8> {\n    ?e1 lx:resolutionSourceFile ?rlexFile ;\n        lx:externalPackage \"axum\" .\n  }\n  GRAPH <https://repolex.ai/r/tokio-rs/axum/lsp/c59208c86fded335cd85e388030ad59347b0e5ae> {\n    ?e2 lx:resolutionSourceFile ?axumFile ;\n        lx:externalPackage \"syn\" ;\n        lx:callTarget ?synTarget .\n  }\n  BIND(REPLACE(REPLACE(STR(?synTarget), '^.*commit/[^/]+/', ''), '#.*$', '') AS ?synFile)\n  GRAPH <https://repolex.ai/r/dtolnay/syn/lsp/7bcb37cdb3399977658c8b52d2441d37e42e48f2> {\n    ?e3 lx:resolutionSourceFile ?synFile ;\n        lx:externalPackage \"quote\" ;\n        lx:callTarget ?quoteTarget .\n  }\n  BIND(REPLACE(REPLACE(STR(?quoteTarget), '^.*commit/[^/]+/', ''), '#.*$', '') AS ?quoteFile)\n  GRAPH <https://repolex.ai/r/dtolnay/quote/lsp/842ffde933fdd76cd1681a288bed136d8b95a97a> {\n    ?e4 lx:resolutionSourceFile ?quoteFile ;\n        lx:externalPackage \"proc-macro2\" ;\n        lx:callTarget ?pmTarget .\n  }\n}\nLIMIT 25\n";

/// Three hops: axum ➔ syn ➔ quote ➔ proc-macro2, joined on the files that call targets point at.
pub const AXUM_TO_PROC_MACRO_QUERY: &'static str = "\nPREFIX lx: <https://repolex.ai/ontology/repolex/lsp-extension/>\nSELECT ?axumFile ?synFile ?quoteFile ?pmTarget\nWHERE {\n  GRAPH <https://repolex.ai/r/tokio-rs/axum/lsp/c59208c86fded335cd85e388030ad59347b0e5ae> {\n    ?e1 lx:resolutionSourceFile ?axumFile ;\n        lx:externalPackage \"syn\" ;\n        lx:callTarget ?synTarget .\n  }\n  BIND(REPLACE(REPLACE(STR(?synTarget), '^.*commit/[^/]+/', ''), '#.*$', '') AS ?synFile)\n  GRAPH <https://repolex.ai/r/dtolnay/syn/lsp/7bcb37cdb3399977658c8b52d2441d37e42e48f2> {\n    ?e2 lx:resolutionSourceFile ?synFile ;\n        lx:externalPackage \"quote\" ;\n        lx:callTarget ?quoteTarget .\n  }\n  BIND(REPLACE(REPLACE(STR(?quoteTarget), '^.*commit/[^/]+/', ''), '#.*$', '') AS ?quoteFile)\n  GRAPH <https://repolex.ai/r/dtolnay/quote/lsp/842ffde933fdd76cd1681a288bed136d8b95a97a> {\n    ?e3 lx:resolutionSourceFile ?quoteFile ;\n        lx:externalPackage \"proc-macro2\" ;\n        lx:callTarget ?pmTarget .\n  }\n}\nLIMIT 25\n";

/// One hop: socket2 ➔ libc.
pub const SOCKET_TO_LIBC_QUERY: &'static str = "\nPREFIX lx: <https://repolex.ai/ontology/repolex/lsp-extension/>\nSELECT ?socketFile ?libcTarget\nWHERE {\n  GRAPH <https://repolex.ai/r/rust-lang/socket2/lsp/239dd83a4ced08e514d2c38942aab99791119f0d> {\n    ?e lx:resolutionSourceFile ?socketFile ;\n       lx:externalPackage \"libc\" ;\n       lx:callTarget ?libcTarget .\n  }\n}\nLIMIT 20\n";

/// One hop: git2-rs ➔ libc.
pub const GIT2_TO_LIBC_QUERY: &'static str = "\nPREFIX lx: <https://repolex.ai/ontology/repolex/lsp-extension/>\nSELECT ?gitFile ?libcTarget\nWHERE {\n  GRAPH <https://repolex.ai/r/rust-lang/git2-rs/lsp/b863968301f0e889fa04afc590d7e2c9a4100dc3> {\n    ?e lx:resolutionSourceFile ?gitFile ;\n       lx:externalPackage \"libc\" ;\n       lx:callTarget ?libcTarget .\n  }\n}\nLIMIT 20\n";

/// One hop from flate2: text before the package name.
pub const COMPRESSION_QUERY_HEAD: &'static str = "\nPREFIX lx: <https://repolex.ai/ontology/repolex/lsp-extension/>\nSELECT ?flateFile ?target\nWHERE {\n  GRAPH <https://repolex.ai/r/rust-lang/flate2-rs/lsp/93c81772305a102f1ec846bd12713dd7bf1e3f04> {\n    ?e lx:resolutionSourceFile ?flateFile ;\n       lx:externalPackage \"";

/// One hop from flate2: text after the package name.
pub const COMPRESSION_QUERY_TAIL: &'static str = "\" ;\n       lx:callTarget ?target .\n  }\n}\nLIMIT 20\n";

/// Generic one hop: text before the source graph IRI.
pub const GENERIC_QUERY_HEAD: &'static str = "\nPREFIX lx: <https://repolex.ai/ontology/repolex/lsp-extension/>\nSELECT ?callerFile ?callTarget\nWHERE {\n  GRAPH <";

/// Generic one hop: text after the graph IRI, before the first target name.
pub const GENERIC_QUERY_PART1: &'static str = "> {\n    ?e lx:resolutionSourceFile ?callerFile ;\n       lx:externalPackage ?pkg ;\n       lx:callTarget ?callTarget .\n    FILTER(LCASE(STR(?pkg)) = \"";

/// Generic one hop: text between the first and second target names.
pub const GENERIC_QUERY_PART2: &'static str = "\" || STRSTARTS(LCASE(STR(?pkg)), \"";

/// Generic one hop: text between the second and third target names.
pub const GENERIC_QUERY_PART3: &'static str = "-\") || STRSTARTS(LCASE(STR(?pkg)), \"";

/// Generic one hop: text after the third target name.
pub const GENERIC_QUERY_PART4: &'static str = "_\"))\n  }\n}\nLIMIT 25\n";

} // verus!
