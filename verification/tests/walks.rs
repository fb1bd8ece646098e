use rlex::closure::{clamp_depth, count_nodes, edges_at_hop, filter_edges, ClosureEdgeJson, ClosureWalk};
use rlex::cycles::{
    build_internal_query, build_pair_query, first_pair, internal_cycles, next_pair, outgoing_targets,
    pair_cycle, reverse_cycle, scope_name,
};
use rlex::registry::{get_backbone, resolve_repo, CacheRepoDir, RepoRef};

fn s(x: &str) -> String {
    x.to_string()
}

fn row(cells: &[&str]) -> Vec<String> {
    cells.iter().map(|c| c.to_string()).collect()
}

fn edge(hop: usize, caller: &str, target: &str) -> ClosureEdgeJson {
    ClosureEdgeJson {
        hop,
        caller: s(caller),
        target: s(target),
        call_count: 1,
        sample_source_file: s("f.rs"),
    }
}

#[test]
fn closure_depth_is_clamped() {
    assert_eq!(clamp_depth(0), 1);
    assert_eq!(clamp_depth(3), 3);
    assert_eq!(clamp_depth(99), 6);
}

#[test]
fn closure_walk_expands_known_repositories() {
    let root = resolve_repo("regex", None).unwrap();
    let mut w = ClosureWalk::start(root, 2);
    assert_eq!(w.max_depth, 2);
    assert_eq!(w.visited, vec![s("rust-lang/regex"), s("regex")]);
    let job = w.next_job().expect("root is queued");
    assert_eq!(job.depth, 0);
    assert!(job.sparql.contains("GRAPH <https://repolex.ai/r/rust-lang/regex/lsp/25a15e272b3ae5aee76b525902c2ab91b0d9e12e>"));
    assert!(job.sparql.contains("LIMIT 50"));
    let rows = vec![
        row(&["aho-corasick", "12", "src/a.rs"]),
        row(&["memchr", "x"]),
        row(&[]),
        row(&["", "3"]),
        row(&["Aho-Corasick", "2", "src/b.rs"]),
        row(&["leftpad-unknown-zz"]),
    ];
    w.absorb(&job, &rows, None);
    assert_eq!(w.edges.len(), 4);
    assert_eq!(w.edges[0].hop, 1);
    assert_eq!(w.edges[0].caller, "regex");
    assert_eq!(w.edges[0].target, "aho-corasick");
    assert_eq!(w.edges[0].call_count, 12);
    assert_eq!(w.edges[0].sample_source_file, "src/a.rs");
    assert_eq!(w.edges[1].call_count, 0);
    assert_eq!(w.edges[1].sample_source_file, "unknown");
    assert_eq!(w.edges[3].target, "leftpad-unknown-zz");
    // aho-corasick and memchr resolve; the second spelling of aho-corasick is
    // already visited; the unknown package resolves to nothing.
    assert_eq!(w.queue.len(), 2);
    assert_eq!(w.visited.len(), 5);
    let next = w.next_job().expect("aho-corasick is queued");
    assert_eq!(next.repo.repo, "aho-corasick");
    assert_eq!(next.depth, 1);
    w.absorb(&next, &vec![row(&["memchr", "5"])], None);
    assert_eq!(w.edges.len(), 5);
    assert_eq!(w.edges[4].hop, 2);
    assert_eq!(w.queue.len(), 1);
    let third = w.next_job().expect("memchr is queued");
    assert_eq!(third.repo.repo, "memchr");
    w.absorb(&third, &vec![], None);
    assert!(w.next_job().is_none());
    assert!(w.queue.is_empty());
}

#[test]
fn closure_walk_drops_entries_at_the_depth_bound() {
    let root = resolve_repo("syn", None).unwrap();
    let mut w = ClosureWalk::start(root, 1);
    let job = w.next_job().unwrap();
    w.absorb(&job, &vec![row(&["quote", "4"])], None);
    assert_eq!(w.queue.len(), 1);
    assert!(w.next_job().is_none());
    assert_eq!(w.edges.len(), 1);
}

#[test]
fn closure_walk_resolves_through_the_cache() {
    let cache = vec![CacheRepoDir { org: s("acme"), repo: s("widgets"), commit_dirs: vec![s("abc123")] }];
    let root = resolve_repo("regex", None).unwrap();
    let mut w = ClosureWalk::start(root, 3);
    let job = w.next_job().unwrap();
    w.absorb(&job, &vec![row(&["widgets", "1"])], Some(&cache));
    let next = w.next_job().unwrap();
    assert_eq!(next.repo.org, "acme");
    assert_eq!(next.repo.commit, "abc123");
}

#[test]
fn closure_filter_and_counts() {
    let edges = vec![edge(1, "regex", "memchr"), edge(1, "regex", "aho-corasick"), edge(2, "aho-corasick", "memchr")];
    let kept = filter_edges(&edges, Some("AHO"));
    assert_eq!(kept.len(), 2);
    assert_eq!(kept[0].target, "aho-corasick");
    assert_eq!(filter_edges(&edges, None).len(), 3);
    assert_eq!(count_nodes("rust-lang/regex", &edges), 4);
    assert_eq!(count_nodes("rust-lang/regex", &vec![]), 1);
    let hop2 = edges_at_hop(&edges, 2);
    assert_eq!(hop2.len(), 1);
    assert_eq!(hop2[0].caller, "aho-corasick");
}

#[test]
fn cycles_queries_and_rows() {
    let repo = resolve_repo("syn", None).unwrap();
    let q = build_internal_query(&repo);
    assert!(q.contains("GRAPH <https://repolex.ai/r/dtolnay/syn/lsp/7bcb37cdb3399977658c8b52d2441d37e42e48f2>"));
    assert!(q.contains("FILTER(STR(?srcA) < STR(?srcB))"));
    let cs = internal_cycles(&vec![row(&["a.rs", "b.rs"]), row(&["lonely.rs"])]);
    assert_eq!(cs.len(), 1);
    assert_eq!(cs[0].cycle_type, "Internal Cross-File Mutual Call");
    assert_eq!(cs[0].evidence, "Mutual function invocation between a.rs and b.rs");
    assert_eq!(scope_name(None), "Ecosystem Backbone");
    assert_eq!(scope_name(Some("syn")), "syn");
}

#[test]
fn cycles_pairs_and_counts() {
    let r1 = resolve_repo("syn", None).unwrap();
    let r2 = resolve_repo("quote", None).unwrap();
    let q = build_pair_query(&r1, &r2);
    assert!(q.contains("FILTER(LCASE(STR(?pkgB)) = \"quote\")"));
    assert!(q.contains("FILTER(LCASE(STR(?pkgA)) = \"syn\")"));
    let c = pair_cycle(&r1, &r2, &vec![row(&["3", "1200"])]).expect("both call each other");
    assert_eq!(c.evidence, "syn calls quote (3 times), and quote calls syn (1200 times)");
    assert!(pair_cycle(&r1, &r2, &vec![row(&["3", "0"])]).is_none());
    assert!(pair_cycle(&r1, &r2, &vec![]).is_none());
    let rc = reverse_cycle(&r1, &r2, &vec![row(&["7"])]).unwrap();
    assert_eq!(rc.evidence, "Mutual cross-calls between syn and quote");
    assert!(reverse_cycle(&r1, &r2, &vec![row(&["zero"])]).is_none());
    let targets = outgoing_targets(&vec![row(&["quote"]), row(&[]), row(&["nope-nothing-zz"])], None);
    assert_eq!(targets.len(), 1);
    assert_eq!(targets[0].repo, "quote");
}

#[test]
fn cycles_pair_walk_meets_every_pair_once() {
    let n = 4usize;
    let mut seen = Vec::new();
    let mut cur = first_pair(n);
    while let Some((i, j)) = cur {
        seen.push((i, j));
        cur = next_pair(i, j, n);
    }
    assert_eq!(seen, vec![(0, 1), (0, 2), (0, 3), (1, 2), (1, 3), (2, 3)]);
    assert_eq!(first_pair(1), None);
}

#[test]
fn backbone_lists_each_repository_once() {
    let b = get_backbone();
    let mut keys: Vec<String> = b.iter().map(|r: &RepoRef| format!("{}/{}", r.org, r.repo)).collect();
    let n = keys.len();
    keys.sort();
    keys.dedup();
    assert_eq!(keys.len(), n);
    assert_eq!(n, 26);
    assert_eq!(b[0].repo, "rlex");
    assert_eq!(b[2].repo, "actix-web");
    assert_eq!(b[3].repo, "regex");
}
