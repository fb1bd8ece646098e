//! Choosing what to download for a commit, where it comes from and where it
//! lands, and the listing of what the local cache holds.
use vstd::prelude::*;
use crate::config;
use crate::config::Config;
use crate::index;
use crate::index::{RepoManifest, TrackedCommit};
use crate::order;
use crate::text;

verus! {

/// A repository with at least one commit in the local cache.
#[derive(Debug)]
pub struct CachedRepo {
    pub org: String,
    pub repo: String,
    pub commits: Vec<CachedCommit>,
}

/// A cached commit: its files and their total size.
#[derive(Debug)]
pub struct CachedCommit {
    pub hexsha: String,
    pub file_count: u32,
    pub total_size: u64,
}

/// A commit that a download target names: its tag is the target, or its
/// sha starts with it.
pub open spec fn matches_target(c: TrackedCommit, target: Seq<char>) -> bool {
    index::opt_view(c.tag_name) == Some(target) || text::starts_with_seq(c.hexsha@, target)
}

/// The first tracked commit that the target names.
pub fn select_commit(manifest: &RepoManifest, target: &str) -> (r: Option<TrackedCommit>)
    ensures
        match r {
            Some(c) => {
                let s = manifest.tracked_commits@;
                let p = |c: TrackedCommit| matches_target(c, target@);
                &&& text::any_where(s, p)
                &&& index::tracked_view(c) == index::tracked_view(s[text::first_where(s, p)])
            },
            None => !text::any_where(
                manifest.tracked_commits@,
                |c: TrackedCommit| matches_target(c, target@),
            ),
        },
{
    let ghost s = manifest.tracked_commits@;
    let ghost p = |c: TrackedCommit| matches_target(c, target@);
    let tv = text::chars_of(target);
    let mut i: usize = 0;
    while i < manifest.tracked_commits.len()
        invariant
            i <= s.len(),
            s == manifest.tracked_commits@,
            p == (|c: TrackedCommit| matches_target(c, target@)),
            tv@ == target@,
            forall|j: int| 0 <= j < i ==> !p(#[trigger] s[j]),
        decreases s.len() - i,
    {
        let c = &manifest.tracked_commits[i];
        let tag_hit = match &c.tag_name {
            Some(t) => {
                let cv = text::chars_of(t.as_str());
                text::chars_eq(&cv, &tv)
            },
            None => false,
        };
        if tag_hit || text::str_starts_with(c.hexsha.as_str(), target) {
            proof {
                assert(p(s[i as int]));
                assert(text::is_first_where(s, p, i as int));
                text::lemma_first_where(s, p, i as int);
            }
            return Some(c.clone());
        }
        assert(!p(s[i as int]));
        i = i + 1;
    }
    None
}

/// A commit whose graphs have been parsed and can be downloaded.
pub fn is_parsed(c: &TrackedCommit) -> (r: bool)
    ensures
        r == (c.parse_status@ == "parsed"@),
{
    text::str_eq(c.parse_status.as_str(), "parsed")
}

/// Base of the download addresses of a repository's graph files:
/// `https://github.com/repolex-forx/{org}--{repo}/raw/main`.
pub open spec fn download_base_spec(org: Seq<char>, repo: Seq<char>) -> Seq<char> {
    "https://github.com/repolex-forx/"@ + org + "--"@ + repo + "/raw/main"@
}

/// Base of the download addresses of a repository's graph files.
pub fn download_base(org: &str, repo: &str) -> (s: String)
    ensures
        s@ == download_base_spec(org@, repo@),
{
    let mut v = text::chars_of("https://github.com/repolex-forx/");
    text::push_str(&mut v, org);
    text::push_str(&mut v, "--");
    text::push_str(&mut v, repo);
    text::push_str(&mut v, "/raw/main");
    text::string_from_chars(&v)
}

/// Address of one graph file: the base, a slash, and its path.
pub fn file_url(base: &str, path: &str) -> (s: String)
    ensures
        s@ == base@ + "/"@ + path@,
{
    let mut v = text::chars_of(base);
    text::push_str(&mut v, "/");
    text::push_str(&mut v, path);
    text::string_from_chars(&v)
}

/// Cache directory of one commit: `{cache}/{org}/{repo}/{hexsha}`.
pub fn commit_cache_dir(config: &Config, org: &str, repo: &str, hexsha: &str) -> (p: String)
    ensures
        p@ == config::path_join(
            config::path_join(config::path_join(config.paths.cache@, org@), repo@),
            hexsha@,
        ),
{
    let base = config.cache_path(org, repo);
    config::join_path(base.as_str(), hexsha)
}

/// View of a cached commit.
pub open spec fn cached_commit_view(c: CachedCommit) -> (Seq<char>, u32, u64) {
    (c.hexsha@, c.file_count, c.total_size)
}

/// View of a cached repository.
pub open spec fn cached_view(c: CachedRepo) -> (Seq<char>, Seq<char>, Seq<(Seq<char>, u32, u64)>) {
    (c.org@, c.repo@, c.commits@.map_values(|x: CachedCommit| cached_commit_view(x)))
}

/// View of a list of cached repositories.
pub open spec fn cached_list_view(v: Seq<CachedRepo>) -> Seq<
    (Seq<char>, Seq<char>, Seq<(Seq<char>, u32, u64)>),
> {
    v.map_values(|c: CachedRepo| cached_view(c))
}

/// Listing order of cached repositories: by their `org/repo` name.
pub open spec fn cached_le(
    a: (Seq<char>, Seq<char>, Seq<(Seq<char>, u32, u64)>),
    b: (Seq<char>, Seq<char>, Seq<(Seq<char>, u32, u64)>),
) -> bool {
    order::lex_le(a.0 + "/"@ + a.1, b.0 + "/"@ + b.1)
}

proof fn lemma_cached_total_order()
    ensures
        order::total_order(
            |
                a: (Seq<char>, Seq<char>, Seq<(Seq<char>, u32, u64)>),
                b: (Seq<char>, Seq<char>, Seq<(Seq<char>, u32, u64)>),
            |
                cached_le(a, b),
        ),
{
    assert forall|
        a: (Seq<char>, Seq<char>, Seq<(Seq<char>, u32, u64)>),
        b: (Seq<char>, Seq<char>, Seq<(Seq<char>, u32, u64)>),
    | cached_le(a, b) || cached_le(b, a) by {
        order::lemma_lex_total(a.0 + "/"@ + a.1, b.0 + "/"@ + b.1);
    }
    assert forall|
        a: (Seq<char>, Seq<char>, Seq<(Seq<char>, u32, u64)>),
        b: (Seq<char>, Seq<char>, Seq<(Seq<char>, u32, u64)>),
        c: (Seq<char>, Seq<char>, Seq<(Seq<char>, u32, u64)>),
    | cached_le(a, b) && cached_le(b, c) implies cached_le(a, c) by {
        order::lemma_lex_trans(a.0 + "/"@ + a.1, b.0 + "/"@ + b.1, c.0 + "/"@ + c.1);
    }
}

fn cached_key(c: &CachedRepo) -> (k: Vec<char>)
    ensures
        k@ == c.org@ + "/"@ + c.repo@,
{
    let mut k = text::chars_of(c.org.as_str());
    text::push_str(&mut k, "/");
    text::push_str(&mut k, c.repo.as_str());
    k
}

fn key_le(c: &CachedRepo, k: &Vec<char>) -> (r: bool)
    ensures
        r == order::lex_le(c.org@ + "/"@ + c.repo@, k@),
{
    let ck = cached_key(c);
    order::chars_le(&ck, k)
}

/// The cached repositories in ascending order of their `org/repo` name,
/// each as often as it was given.
pub fn sort_cached(v: Vec<CachedRepo>) -> (r: Vec<CachedRepo>)
    ensures
        cached_list_view(r@).to_multiset() == cached_list_view(v@).to_multiset(),
        order::sorted_by(
            cached_list_view(r@),
            |
                a: (Seq<char>, Seq<char>, Seq<(Seq<char>, u32, u64)>),
                b: (Seq<char>, Seq<char>, Seq<(Seq<char>, u32, u64)>),
            |
                cached_le(a, b),
        ),
{
    let ghost le = |
        a: (Seq<char>, Seq<char>, Seq<(Seq<char>, u32, u64)>),
        b: (Seq<char>, Seq<char>, Seq<(Seq<char>, u32, u64)>),
    | cached_le(a, b);
    proof {
        lemma_cached_total_order();
    }
    let ghost all = cached_list_view(v@);
    let mut src = v;
    let mut out: Vec<CachedRepo> = Vec::new();
    assert(cached_list_view(out@) =~= Seq::empty());
    proof {
        cached_list_view(out@).to_multiset_ensures();
        vstd::multiset::lemma_multiset_empty_len(cached_list_view(out@).to_multiset());
    }
    assert(cached_list_view(out@).to_multiset().add(cached_list_view(src@).to_multiset())
        =~= all.to_multiset());
    while src.len() > 0
        invariant
            order::total_order(le),
            le == (|
                a: (Seq<char>, Seq<char>, Seq<(Seq<char>, u32, u64)>),
                b: (Seq<char>, Seq<char>, Seq<(Seq<char>, u32, u64)>),
            |
                cached_le(a, b)),
            order::sorted_by(cached_list_view(out@), le),
            cached_list_view(out@).to_multiset().add(cached_list_view(src@).to_multiset())
                == all.to_multiset(),
        decreases src.len(),
    {
        let ghost s0 = cached_list_view(src@);
        let x = src.pop().unwrap();
        let ghost xv = cached_view(x);
        proof {
            assert(s0 =~= cached_list_view(src@).push(xv));
            cached_list_view(src@).to_multiset_ensures();
        }
        let xk = cached_key(&x);
        let ghost ov = cached_list_view(out@);
        let mut pos: usize = 0;
        while pos < out.len() && key_le(&out[pos], &xk)
            invariant
                pos <= out@.len(),
                ov == cached_list_view(out@),
                xv == cached_view(x),
                xk@ == x.org@ + "/"@ + x.repo@,
                le == (|
                    a: (Seq<char>, Seq<char>, Seq<(Seq<char>, u32, u64)>),
                    b: (Seq<char>, Seq<char>, Seq<(Seq<char>, u32, u64)>),
                |
                    cached_le(a, b)),
                forall|k: int| 0 <= k < pos ==> #[trigger] le(ov[k], xv),
            decreases out.len() - pos,
        {
            assert(ov[pos as int] == cached_view(out@[pos as int]));
            pos = pos + 1;
        }
        proof {
            if pos < out.len() {
                assert(ov[pos as int] == cached_view(out@[pos as int]));
            }
            order::lemma_insert_sorted(ov, pos as int, xv, le);
            order::lemma_insert_multiset(ov, pos as int, xv);
        }
        out.insert(pos, x);
        assert(cached_list_view(out@) =~= ov.insert(pos as int, xv));
    }
    assert(cached_list_view(src@) =~= Seq::empty());
    proof {
        cached_list_view(src@).to_multiset_ensures();
        vstd::multiset::lemma_multiset_empty_len(cached_list_view(src@).to_multiset());
    }
    assert(cached_list_view(out@).to_multiset() =~= all.to_multiset());
    out
}

} // verus!
