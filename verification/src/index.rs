//! The forx-index: manifests of the repositories and commits it tracks.
use vstd::prelude::*;
use crate::order;
use crate::text;

verus! {

/// Address of the forx-index repository.
pub const FORX_INDEX_URL: &'static str = "https://github.com/repolex-forx/forx-index.git";

/// Manifest of one tracked repository.
#[derive(Debug)]
pub struct RepoManifest {
    pub id: String,
    pub name: String,
    pub owner: String,
    pub tracked_commits: Vec<TrackedCommit>,
}

/// One commit of a tracked repository.
#[derive(Debug)]
pub struct TrackedCommit {
    pub id: String,
    pub hexsha: String,
    pub parse_status: String,
    pub tag_name: Option<String>,
    pub parsed_at: Option<String>,
}

/// Manifest of one parsed commit.
#[derive(Debug)]
pub struct CommitManifest {
    pub id: String,
    pub hexsha: String,
    pub graph_files: Vec<GraphFile>,
    pub parse_status: String,
    pub tag_name: Option<String>,
}

/// One graph file of a parsed commit.
#[derive(Debug)]
pub struct GraphFile {
    pub graph_type: String,
    pub graph_file_path: String,
    pub graph_file_size: u64,
}

/// View of an optional text.
pub open spec fn opt_view(o: Option<String>) -> Option<Seq<char>> {
    match o {
        Some(s) => Some(s@),
        None => None,
    }
}

/// View of a tracked commit: id, sha, parse status, tag, parse time.
pub type TrackedView = (Seq<char>, Seq<char>, Seq<char>, Option<Seq<char>>, Option<Seq<char>>);

/// View of a tracked commit.
pub open spec fn tracked_view(c: TrackedCommit) -> TrackedView {
    (c.id@, c.hexsha@, c.parse_status@, opt_view(c.tag_name), opt_view(c.parsed_at))
}

/// Copies an optional text.
pub fn copy_opt(o: &Option<String>) -> (r: Option<String>)
    ensures
        opt_view(r) == opt_view(*o),
{
    match o {
        Some(s) => Some(s.clone()),
        None => None,
    }
}

impl Clone for TrackedCommit {
    fn clone(&self) -> (r: Self)
        ensures
            tracked_view(r) == tracked_view(*self),
    {
        TrackedCommit {
            id: self.id.clone(),
            hexsha: self.hexsha.clone(),
            parse_status: self.parse_status.clone(),
            tag_name: copy_opt(&self.tag_name),
            parsed_at: copy_opt(&self.parsed_at),
        }
    }
}

/// A commit carries the tag `tag`.
pub open spec fn has_tag(c: TrackedCommit, tag: Seq<char>) -> bool {
    opt_view(c.tag_name) == Some(tag)
}

/// Finds the first commit of the manifest tagged `tag`.
pub fn find_commit_by_tag(manifest: &RepoManifest, tag: &str) -> (r: Option<TrackedCommit>)
    ensures
        match r {
            Some(c) => {
                let s = manifest.tracked_commits@;
                let p = |c: TrackedCommit| has_tag(c, tag@);
                &&& text::any_where(s, p)
                &&& tracked_view(c) == tracked_view(s[text::first_where(s, p)])
            },
            None => !text::any_where(
                manifest.tracked_commits@,
                |c: TrackedCommit| has_tag(c, tag@),
            ),
        },
{
    let ghost s = manifest.tracked_commits@;
    let ghost p = |c: TrackedCommit| has_tag(c, tag@);
    let tv = text::chars_of(tag);
    let mut i: usize = 0;
    while i < manifest.tracked_commits.len()
        invariant
            i <= s.len(),
            s == manifest.tracked_commits@,
            p == (|c: TrackedCommit| has_tag(c, tag@)),
            tv@ == tag@,
            forall|j: int| 0 <= j < i ==> !p(#[trigger] s[j]),
        decreases s.len() - i,
    {
        let c = &manifest.tracked_commits[i];
        let hit = match &c.tag_name {
            Some(t) => {
                let cv = text::chars_of(t.as_str());
                text::chars_eq(&cv, &tv)
            },
            None => false,
        };
        if hit {
            proof {
                assert(p(s[i as int]));
                assert(text::is_first_where(s, p, i as int));
                text::lemma_first_where(s, p, i as int);
            }
            return Some(c.clone());
        }
        assert(!p(s[i as int]));
        i = i + 1;
    }
    None
}

/// View of an `(org, repo)` pair of names.
pub open spec fn name_pair_view(p: (String, String)) -> (Seq<char>, Seq<char>) {
    (p.0@, p.1@)
}

/// View of a list of `(org, repo)` pairs.
pub open spec fn name_pairs_view(v: Seq<(String, String)>) -> Seq<(Seq<char>, Seq<char>)> {
    v.map_values(|p: (String, String)| name_pair_view(p))
}

fn pair_le_exec(p: &(String, String), q: &(String, String)) -> (r: bool)
    ensures
        r == order::pair_le(name_pair_view(*p), name_pair_view(*q)),
{
    let p0 = text::chars_of(p.0.as_str());
    let q0 = text::chars_of(q.0.as_str());
    if text::chars_eq(&p0, &q0) {
        let p1 = text::chars_of(p.1.as_str());
        let q1 = text::chars_of(q.1.as_str());
        order::chars_le(&p1, &q1)
    } else {
        order::chars_le(&p0, &q0)
    }
}

/// The `(org, repo)` pairs of the index in ascending order (by org, then
/// repo), each as often as it was given.
pub fn sort_repo_names(v: &Vec<(String, String)>) -> (r: Vec<(String, String)>)
    ensures
        name_pairs_view(r@).to_multiset() == name_pairs_view(v@).to_multiset(),
        order::sorted_by(
            name_pairs_view(r@),
            |p: (Seq<char>, Seq<char>), q: (Seq<char>, Seq<char>)| order::pair_le(p, q),
        ),
{
    let ghost le = |p: (Seq<char>, Seq<char>), q: (Seq<char>, Seq<char>)| order::pair_le(p, q);
    proof {
        order::lemma_pair_total_order();
    }
    let mut out: Vec<(String, String)> = Vec::new();
    let mut i: usize = 0;
    assert(name_pairs_view(v@.take(0)) =~= Seq::<(Seq<char>, Seq<char>)>::empty());
    assert(name_pairs_view(out@) =~= Seq::<(Seq<char>, Seq<char>)>::empty());
    while i < v.len()
        invariant
            i <= v@.len(),
            le == (|p: (Seq<char>, Seq<char>), q: (Seq<char>, Seq<char>)| order::pair_le(p, q)),
            order::total_order(le),
            order::sorted_by(name_pairs_view(out@), le),
            name_pairs_view(out@).to_multiset() == name_pairs_view(v@.take(i as int)).to_multiset(),
        decreases v.len() - i,
    {
        let x = (v[i].0.clone(), v[i].1.clone());
        let ghost xv = name_pair_view(x);
        let ghost ov = name_pairs_view(out@);
        let mut pos: usize = 0;
        while pos < out.len() && pair_le_exec(&out[pos as usize], &x)
            invariant
                pos <= out@.len(),
                ov == name_pairs_view(out@),
                xv == name_pair_view(x),
                le == (|p: (Seq<char>, Seq<char>), q: (Seq<char>, Seq<char>)| order::pair_le(p, q)),
                forall|k: int| 0 <= k < pos ==> #[trigger] le(ov[k], xv),
            decreases out.len() - pos,
        {
            assert(ov[pos as int] == name_pair_view(out@[pos as int]));
            pos = pos + 1;
        }
        proof {
            order::lemma_insert_sorted(ov, pos as int, xv, le);
            order::lemma_insert_multiset(ov, pos as int, xv);
            assert(name_pairs_view(v@.take(i + 1)) =~= name_pairs_view(v@.take(i as int)).push(xv));
            name_pairs_view(v@.take(i as int)).to_multiset_ensures();
        }
        out.insert(pos, x);
        assert(name_pairs_view(out@) =~= ov.insert(pos as int, xv));
        i = i + 1;
    }
    assert(v@.take(v@.len() as int) =~= v@);
    out
}

} // verus!
