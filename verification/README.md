# rlex

A SPARQL query tool, catalog and server for Repolex / Forx code knowledge
graphs, with its logic written in Verus and proved against its contracts.

## Layout

- `src/` — the verified library. Each module states what its functions
  return in `requires` / `ensures` over spec functions on sequences, sets and
  integers, and proves it:
  - `registry`, `equivalence`: resolving repository names to known commits,
    graph IRIs, and mapping lockfile commits of call targets to canonical
    release commits.
  - `query`, `client`, `serve`: result formatting (table, CSV, TSV, JSON),
    SPARQL-JSON bindings, reading a query out of an HTTP request, ISO 8601
    timestamps.
  - `scan_guard`: the checks that refuse unanchored wildcard scans.
  - `calls`, `closure`, `cycles`, `diamond`, `warmup`, `audit`,
    `audit_queries`, `queries`: the graph analyses — query construction,
    the breadth-first walk of the dependency closure (a state machine the
    program drives), cycle and diamond detection, the repository audit and
    its health score.
  - `config`, `index`, `download`, `catalog`, `load`, `repos`, `bench`,
    `moreinfo`: configuration paths, the Forx index manifests, the download
    cache, catalog building, N-Quads statement counting, repository search,
    benchmark profiles and help topics.
  - `text`, `numbers`, `order`: string, decimal and ordering helpers with
    their lemmas.
  - Public `law_*` proof functions state properties that span functions.
- `tests/` — tests of the library on concrete values.
- `app/` — the command-line program: argument parsing, file and network
  I/O, the Oxigraph store, the HTTP server and serde copies of the library's
  records. It calls the library for every decision.

The program opens the on-disk Oxigraph store (`Store::open`,
`Store::open_read_only`), which exists only with Oxigraph's `rocksdb`
feature. That feature builds RocksDB from C++ sources; this build leaves it
off, so `app/` as written does not compile here. The library and its tests
do not depend on it.
