//! The catalog of indexed repositories, their commits and their graph files.
use vstd::prelude::*;
use crate::index;
use crate::index::{GraphFile, RepoManifest, TrackedCommit};
use crate::text;

verus! {

/// The whole catalog.
#[derive(Debug)]
pub struct Catalog {
    pub version: u32,
    pub repo_count: u32,
    pub repos: Vec<CatalogRepo>,
}

/// One repository of the catalog.
#[derive(Debug)]
pub struct CatalogRepo {
    pub org: String,
    pub repo: String,
    pub parsed_count: u32,
    pub pending_count: u32,
    pub commits: Vec<CatalogCommit>,
}

/// One commit of a catalogued repository.
#[derive(Debug)]
pub struct CatalogCommit {
    pub hexsha: String,
    pub tag: Option<String>,
    pub status: String,
    pub parsed_at: Option<String>,
    pub cached: bool,
    pub graph_files: Option<Vec<CatalogGraphFile>>,
}

/// One graph file of a catalogued commit.
#[derive(Debug)]
pub struct CatalogGraphFile {
    pub graph_type: String,
    pub size_bytes: u64,
}

/// View of a graph file entry: type and size.
pub type GraphFileView = (Seq<char>, u64);

/// View of a catalogued graph file.
pub open spec fn catalog_file_view(f: CatalogGraphFile) -> GraphFileView {
    (f.graph_type@, f.size_bytes)
}

/// View of an index graph file as a catalog entry.
pub open spec fn index_file_view(f: GraphFile) -> GraphFileView {
    (f.graph_type@, f.graph_file_size)
}

/// View of a commit entry: sha, tag, status, parse time, cached, files.
pub type CommitView = (
    Seq<char>,
    Option<Seq<char>>,
    Seq<char>,
    Option<Seq<char>>,
    bool,
    Option<Seq<GraphFileView>>,
);

/// View of a catalogued commit.
pub open spec fn catalog_commit_view(c: CatalogCommit) -> CommitView {
    (
        c.hexsha@,
        index::opt_view(c.tag),
        c.status@,
        index::opt_view(c.parsed_at),
        c.cached,
        match c.graph_files {
            Some(v) => Some(v@.map_values(|f: CatalogGraphFile| catalog_file_view(f))),
            None => None,
        },
    )
}

/// A tracked commit whose graphs have been parsed.
pub open spec fn is_parsed_commit(c: TrackedCommit) -> bool {
    c.parse_status@ == "parsed"@
}

/// The catalog entry of a tracked commit, given whether it is cached and
/// the graph files its commit manifest lists (when it could be read):
/// the files are listed only for a parsed commit.
pub open spec fn commit_entry(
    c: TrackedCommit,
    cached: bool,
    files: Option<Vec<GraphFile>>,
) -> CommitView {
    (
        c.hexsha@,
        index::opt_view(c.tag_name),
        c.parse_status@,
        index::opt_view(c.parsed_at),
        cached,
        if is_parsed_commit(c) {
            match files {
                Some(v) => Some(v@.map_values(|f: GraphFile| index_file_view(f))),
                None => None,
            }
        } else {
            None
        },
    )
}

fn catalog_files(files: &Vec<GraphFile>) -> (r: Vec<CatalogGraphFile>)
    ensures
        r@.map_values(|f: CatalogGraphFile| catalog_file_view(f)) == files@.map_values(
            |f: GraphFile| index_file_view(f),
        ),
{
    let mut out: Vec<CatalogGraphFile> = Vec::new();
    let mut i: usize = 0;
    while i < files.len()
        invariant
            i <= files@.len(),
            out@.map_values(|f: CatalogGraphFile| catalog_file_view(f)) == files@.take(
                i as int,
            ).map_values(|f: GraphFile| index_file_view(f)),
        decreases files.len() - i,
    {
        let f = &files[i];
        out.push(CatalogGraphFile { graph_type: f.graph_type.clone(), size_bytes: f.graph_file_size });
        assert(files@.take(i + 1).map_values(|f: GraphFile| index_file_view(f)) =~= files@.take(
            i as int,
        ).map_values(|f: GraphFile| index_file_view(f)).push(index_file_view(files@[i as int])));
        assert(out@.map_values(|f: CatalogGraphFile| catalog_file_view(f)) =~= files@.take(
            i + 1,
        ).map_values(|f: GraphFile| index_file_view(f)));
        i = i + 1;
    }
    assert(files@.take(files@.len() as int) =~= files@);
    out
}

/// Whether the commit manifest of a tracked commit is worth reading: only
/// parsed commits list graph files.
pub fn needs_commit_manifest(c: &TrackedCommit) -> (r: bool)
    ensures
        r == is_parsed_commit(*c),
{
    text::str_eq(c.parse_status.as_str(), "parsed")
}

/// Number of parsed commits in `s`.
pub open spec fn parsed_among(s: Seq<TrackedCommit>) -> nat {
    s.filter(|c: TrackedCommit| is_parsed_commit(c)).len()
}

/// The catalog entry of one repository from its manifest and, for each of
/// its tracked commits in order, whether the commit is in the local cache
/// and the graph files of its commit manifest (`None` when it could not be
/// read). The entry counts the parsed commits and the others.
pub fn catalog_repo(
    org: &str,
    repo: &str,
    manifest: &RepoManifest,
    cached: &Vec<bool>,
    files: &Vec<Option<Vec<GraphFile>>>,
) -> (r: CatalogRepo)
    requires
        cached@.len() == manifest.tracked_commits@.len(),
        files@.len() == manifest.tracked_commits@.len(),
        manifest.tracked_commits@.len() <= u32::MAX,
    ensures
        r.org@ == org@,
        r.repo@ == repo@,
        r.parsed_count == parsed_among(manifest.tracked_commits@),
        r.pending_count == manifest.tracked_commits@.len() - parsed_among(
            manifest.tracked_commits@,
        ),
        r.commits@.len() == manifest.tracked_commits@.len(),
        forall|i: int|
            0 <= i < r.commits@.len() ==> catalog_commit_view(#[trigger] r.commits@[i])
                == commit_entry(manifest.tracked_commits@[i], cached@[i], files@[i]),
{
    let ghost s = manifest.tracked_commits@;
    let ghost p = |c: TrackedCommit| is_parsed_commit(c);
    let mut commits: Vec<CatalogCommit> = Vec::new();
    let mut parsed: u32 = 0;
    let mut pending: u32 = 0;
    let mut i: usize = 0;
    assert(s.take(0).filter(p) =~= Seq::<TrackedCommit>::empty()) by {
        reveal_with_fuel(Seq::filter, 1);
    }
    while i < manifest.tracked_commits.len()
        invariant
            i <= s.len(),
            s == manifest.tracked_commits@,
            s.len() <= u32::MAX,
            cached@.len() == s.len(),
            files@.len() == s.len(),
            p == (|c: TrackedCommit| is_parsed_commit(c)),
            parsed == s.take(i as int).filter(p).len(),
            parsed + pending == i,
            commits@.len() == i,
            forall|k: int|
                0 <= k < i ==> catalog_commit_view(#[trigger] commits@[k]) == commit_entry(
                    s[k],
                    cached@[k],
                    files@[k],
                ),
        decreases s.len() - i,
    {
        let tc = &manifest.tracked_commits[i];
        let is_parsed = needs_commit_manifest(tc);
        proof {
            reveal_with_fuel(Seq::filter, 1);
            assert(s.take(i + 1).drop_last() =~= s.take(i as int));
            assert(s.take(i + 1).last() == s[i as int]);
            assert(s.take(i as int).filter(p).len() <= i) by {
                s.take(i as int).lemma_filter_len(p);
            }
        }
        if is_parsed {
            parsed = parsed + 1;
        } else {
            pending = pending + 1;
        }
        let graph_files = if is_parsed {
            match &files[i] {
                Some(v) => Some(catalog_files(v)),
                None => None,
            }
        } else {
            None
        };
        let entry = CatalogCommit {
            hexsha: tc.hexsha.clone(),
            tag: index::copy_opt(&tc.tag_name),
            status: tc.parse_status.clone(),
            parsed_at: index::copy_opt(&tc.parsed_at),
            cached: cached[i],
            graph_files,
        };
        assert(catalog_commit_view(entry) == commit_entry(s[i as int], cached@[i as int], files@[i as int]));
        commits.push(entry);
        i = i + 1;
    }
    assert(s.take(s.len() as int) =~= s);
    CatalogRepo {
        org: org.to_owned(),
        repo: repo.to_owned(),
        parsed_count: parsed,
        pending_count: pending,
        commits,
    }
}

/// The catalog of the given repositories, at format version 1; the count
/// is the number of repositories as a `u32` (cut to its low 32 bits).
pub fn build_catalog(repos: Vec<CatalogRepo>) -> (c: Catalog)
    ensures
        c.version == 1,
        c.repo_count == repos@.len() as u32,
        c.repos@ == repos@,
{
    let n = repos.len();
    Catalog { version: 1, repo_count: n as u32, repos }
}

} // verus!
