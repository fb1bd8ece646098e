//! Known repositories of the ecosystem backbone and resolution of repository
//! names to graph coordinates.
use vstd::prelude::*;
use crate::text;

verus! {

/// Coordinates of one repository commit in the knowledge graph.
#[derive(Debug, Clone)]
pub struct RepoRef {
    pub org: String,
    pub repo: String,
    pub commit: String,
}

impl View for RepoRef {
    type V = (Seq<char>, Seq<char>, Seq<char>);

    open spec fn view(&self) -> (Seq<char>, Seq<char>, Seq<char>) {
        (self.org@, self.repo@, self.commit@)
    }
}

/// One repository directory found in the local cache, with the names of the
/// commit directories under it, in the order the directory walk met them.
#[derive(Debug, Clone)]
pub struct CacheRepoDir {
    pub org: String,
    pub repo: String,
    pub commit_dirs: Vec<String>,
}

/// Backbone row: (alias, org, repo, commit).
pub type BackboneRow = (Seq<char>, Seq<char>, Seq<char>, Seq<char>);

/// The backbone table of known repositories.
pub open spec fn backbone() -> Seq<BackboneRow> {
    seq![
        ("rlex"@, "repolex-ai"@, "rlex"@, "550a8e5a1a7b121bd970eff3e7575acd158f6bb8"@),
        ("git-lex"@, "repolex-ai"@, "git-lex"@, "d79791e26e44dbd3667f05caa6a97fcd12b3d146"@),
        ("actix"@, "actix"@, "actix-web"@, "5723cf486522d47aad26390cf5b02e95654ae225"@),
        ("actix-web"@, "actix"@, "actix-web"@, "5723cf486522d47aad26390cf5b02e95654ae225"@),
        ("regex"@, "rust-lang"@, "regex"@, "25a15e272b3ae5aee76b525902c2ab91b0d9e12e"@),
        ("aho-corasick"@, "BurntSushi"@, "aho-corasick"@, "d84a5073d5108fce1774b375105dfdb13fe4e81c"@),
        ("memchr"@, "BurntSushi"@, "memchr"@, "886ca4ca4820297191c6e9f7b023dc356f31a4d1"@),
        ("walkdir"@, "BurntSushi"@, "walkdir"@, "4f26be4d450910916ea11533b2efc52b9a6483bc"@),
        ("axum"@, "tokio-rs"@, "axum"@, "c59208c86fded335cd85e388030ad59347b0e5ae"@),
        ("bytes"@, "tokio-rs"@, "bytes"@, "417dccdeff249e0c011327de7d92e0d6fbe7cc43"@),
        ("syn"@, "dtolnay"@, "syn"@, "7bcb37cdb3399977658c8b52d2441d37e42e48f2"@),
        ("quote"@, "dtolnay"@, "quote"@, "842ffde933fdd76cd1681a288bed136d8b95a97a"@),
        ("proc-macro2"@, "dtolnay"@, "proc-macro2"@, "58ab776b95a4c2865554badbb6629c50971a9118"@),
        ("anyhow"@, "dtolnay"@, "anyhow"@, "5c657b32522023a9f7ef883fb08582fd8e656b1a"@),
        ("serde"@, "serde-rs"@, "serde"@, "7fc3b4c30c94f73a96ebd1553f2b090d928fc3a8"@),
        ("serde-json"@, "serde-rs"@, "json"@, "4f6dbfac79647d032b0997b5ab73022340c6dab7"@),
        ("socket2"@, "rust-lang"@, "socket2"@, "239dd83a4ced08e514d2c38942aab99791119f0d"@),
        ("libc"@, "rust-lang"@, "libc"@, "f3417ae86f015b9d0d8789b8fa11e64f9fec0adf"@),
        ("git2"@, "rust-lang"@, "git2-rs"@, "b863968301f0e889fa04afc590d7e2c9a4100dc3"@),
        ("git2-rs"@, "rust-lang"@, "git2-rs"@, "b863968301f0e889fa04afc590d7e2c9a4100dc3"@),
        ("flate2"@, "rust-lang"@, "flate2-rs"@, "93c81772305a102f1ec846bd12713dd7bf1e3f04"@),
        ("flate2-rs"@, "rust-lang"@, "flate2-rs"@, "93c81772305a102f1ec846bd12713dd7bf1e3f04"@),
        ("miniz_oxide"@, "Frommi"@, "miniz_oxide"@, "86d92e8d284b0acd451e7b6db6bdef41ae9c9db4"@),
        ("crc32fast"@, "srijs"@, "rust-crc32fast"@, "a150f65ce810793293d5c9dd815f4510eb6d8e4c"@),
        ("http"@, "hyperium"@, "http"@, "b9625d83b524f7a8306883484f29a746eefc1bab"@),
        ("hyper"@, "hyperium"@, "hyper"@, "0d6c7d5469baa09e2fb127ee3758a79b3271a4f0"@),
        ("reqwest"@, "seanmonstar"@, "reqwest"@, "ad83b63824385a4e5758d263db707549bbe59ba7"@),
        ("ruby"@, "ruby"@, "ruby"@, "995b59f66677d44767ce9faac6957e5543617ff9"@),
        ("jquery"@, "jquery"@, "jquery"@, "4dec426aa2a6cbabb1b064319ba7c272d594a688"@),
    ]
}

/// The backbone table as executable data.
pub fn backbone_table() -> (t: Vec<(&'static str, &'static str, &'static str, &'static str)>)
    ensures
        t@.len() == backbone().len(),
        forall|i: int|
            0 <= i < t@.len() ==> (#[trigger] t@[i]).0@ == backbone()[i].0 && t@[i].1@
                == backbone()[i].1 && t@[i].2@ == backbone()[i].2 && t@[i].3@ == backbone()[i].3,
{
    let mut t = Vec::new();
    t.push(("rlex", "repolex-ai", "rlex", "550a8e5a1a7b121bd970eff3e7575acd158f6bb8"));
    t.push(("git-lex", "repolex-ai", "git-lex", "d79791e26e44dbd3667f05caa6a97fcd12b3d146"));
    t.push(("actix", "actix", "actix-web", "5723cf486522d47aad26390cf5b02e95654ae225"));
    t.push(("actix-web", "actix", "actix-web", "5723cf486522d47aad26390cf5b02e95654ae225"));
    t.push(("regex", "rust-lang", "regex", "25a15e272b3ae5aee76b525902c2ab91b0d9e12e"));
    t.push(("aho-corasick", "BurntSushi", "aho-corasick", "d84a5073d5108fce1774b375105dfdb13fe4e81c"));
    t.push(("memchr", "BurntSushi", "memchr", "886ca4ca4820297191c6e9f7b023dc356f31a4d1"));
    t.push(("walkdir", "BurntSushi", "walkdir", "4f26be4d450910916ea11533b2efc52b9a6483bc"));
    t.push(("axum", "tokio-rs", "axum", "c59208c86fded335cd85e388030ad59347b0e5ae"));
    t.push(("bytes", "tokio-rs", "bytes", "417dccdeff249e0c011327de7d92e0d6fbe7cc43"));
    t.push(("syn", "dtolnay", "syn", "7bcb37cdb3399977658c8b52d2441d37e42e48f2"));
    t.push(("quote", "dtolnay", "quote", "842ffde933fdd76cd1681a288bed136d8b95a97a"));
    t.push(("proc-macro2", "dtolnay", "proc-macro2", "58ab776b95a4c2865554badbb6629c50971a9118"));
    t.push(("anyhow", "dtolnay", "anyhow", "5c657b32522023a9f7ef883fb08582fd8e656b1a"));
    t.push(("serde", "serde-rs", "serde", "7fc3b4c30c94f73a96ebd1553f2b090d928fc3a8"));
    t.push(("serde-json", "serde-rs", "json", "4f6dbfac79647d032b0997b5ab73022340c6dab7"));
    t.push(("socket2", "rust-lang", "socket2", "239dd83a4ced08e514d2c38942aab99791119f0d"));
    t.push(("libc", "rust-lang", "libc", "f3417ae86f015b9d0d8789b8fa11e64f9fec0adf"));
    t.push(("git2", "rust-lang", "git2-rs", "b863968301f0e889fa04afc590d7e2c9a4100dc3"));
    t.push(("git2-rs", "rust-lang", "git2-rs", "b863968301f0e889fa04afc590d7e2c9a4100dc3"));
    t.push(("flate2", "rust-lang", "flate2-rs", "93c81772305a102f1ec846bd12713dd7bf1e3f04"));
    t.push(("flate2-rs", "rust-lang", "flate2-rs", "93c81772305a102f1ec846bd12713dd7bf1e3f04"));
    t.push(("miniz_oxide", "Frommi", "miniz_oxide", "86d92e8d284b0acd451e7b6db6bdef41ae9c9db4"));
    t.push(("crc32fast", "srijs", "rust-crc32fast", "a150f65ce810793293d5c9dd815f4510eb6d8e4c"));
    t.push(("http", "hyperium", "http", "b9625d83b524f7a8306883484f29a746eefc1bab"));
    t.push(("hyper", "hyperium", "hyper", "0d6c7d5469baa09e2fb127ee3758a79b3271a4f0"));
    t.push(("reqwest", "seanmonstar", "reqwest", "ad83b63824385a4e5758d263db707549bbe59ba7"));
    t.push(("ruby", "ruby", "ruby", "995b59f66677d44767ce9faac6957e5543617ff9"));
    t.push(("jquery", "jquery", "jquery", "4dec426aa2a6cbabb1b064319ba7c272d594a688"));
    t
}

} // verus!

verus! {

/// Named graph IRI `https://repolex.ai/r/{org}/{repo}/{kind}/{commit}`.
pub open spec fn graph_iri(org: Seq<char>, repo: Seq<char>, kind: Seq<char>, commit: Seq<char>) -> Seq<
    char,
> {
    "https://repolex.ai/r/"@ + org + "/"@ + repo + "/"@ + kind + "/"@ + commit
}

impl RepoRef {
    fn graph(&self, kind: &str) -> (s: String)
        ensures
            s@ == graph_iri(self.org@, self.repo@, kind@, self.commit@),
    {
        let mut v: Vec<char> = Vec::new();
        text::push_str(&mut v, "https://repolex.ai/r/");
        text::push_str(&mut v, self.org.as_str());
        text::push_str(&mut v, "/");
        text::push_str(&mut v, self.repo.as_str());
        text::push_str(&mut v, "/");
        text::push_str(&mut v, kind);
        text::push_str(&mut v, "/");
        text::push_str(&mut v, self.commit.as_str());
        assert(v@ =~= graph_iri(self.org@, self.repo@, kind@, self.commit@));
        text::string_from_chars(&v)
    }

    /// IRI of the LSP call-edge graph of this commit.
    pub fn lsp_graph(&self) -> (s: String)
        ensures
            s@ == graph_iri(self.org@, self.repo@, "lsp"@, self.commit@),
    {
        self.graph("lsp")
    }

    /// IRI of the declared-dependency graph of this commit.
    pub fn dep_graph(&self) -> (s: String)
        ensures
            s@ == graph_iri(self.org@, self.repo@, "dep"@, self.commit@),
    {
        self.graph("dep")
    }

    /// IRI of the semantic call-site graph of this commit.
    pub fn repolex_graph(&self) -> (s: String)
        ensures
            s@ == graph_iri(self.org@, self.repo@, "repolex"@, self.commit@),
    {
        self.graph("repolex")
    }

    /// IRI of the syntax-tree graph of this commit.
    pub fn ast_graph(&self) -> (s: String)
        ensures
            s@ == graph_iri(self.org@, self.repo@, "ast"@, self.commit@),
    {
        self.graph("ast")
    }
}

/// A query with the `-rs` and `_rs` suffix markers removed.
pub open spec fn clean_name(q: Seq<char>) -> Seq<char> {
    text::replace_seq(text::replace_seq(q, "-rs"@, Seq::empty()), "_rs"@, Seq::empty())
}

/// `org/repo` written with a slash.
pub open spec fn slash_join(org: Seq<char>, repo: Seq<char>) -> Seq<char> {
    org + "/"@ + repo
}

/// Exact match of a normalised query against a backbone row.
pub open spec fn exact_match(q: Seq<char>, clean: Seq<char>, e: BackboneRow) -> bool {
    q == e.0 || clean == e.0 || q == text::lower(slash_join(e.1, e.2))
}

/// Partial match of a cleaned query against a backbone alias.
pub open spec fn partial_match(clean: Seq<char>, e: BackboneRow) -> bool {
    text::contains_seq(e.0, clean) || text::contains_seq(clean, e.0)
}

/// A cached repository directory that matches the cleaned query and holds at
/// least one commit directory.
pub open spec fn cache_match(clean: Seq<char>, d: CacheRepoDir) -> bool {
    &&& (text::contains_seq(text::lower(slash_join(d.org@, d.repo@)), clean)
        || text::contains_seq(text::lower(d.repo@), clean))
    &&& d.commit_dirs@.len() > 0
}

/// The normalised form of a query: trimmed, then lower-cased.
pub open spec fn normalized_query(query: Seq<char>) -> Seq<char> {
    text::lower(text::trim_seq(query))
}

/// Coordinates of a backbone row.
pub open spec fn row_coords(e: BackboneRow) -> (Seq<char>, Seq<char>, Seq<char>) {
    (e.1, e.2, e.3)
}

/// What `resolve_repo` answers: the resolution of the normalised query.
pub open spec fn resolve_spec(query: Seq<char>, cache: Option<Seq<CacheRepoDir>>) -> Option<
    (Seq<char>, Seq<char>, Seq<char>),
> {
    resolve_from(normalized_query(query), cache)
}

/// Resolution of a normalised query `q`: the first backbone row that matches
/// exactly, else the first that matches partially, else the first matching
/// cached repository with its first commit directory.
pub open spec fn resolve_from(q: Seq<char>, cache: Option<Seq<CacheRepoDir>>) -> Option<
    (Seq<char>, Seq<char>, Seq<char>),
> {
    let clean = clean_name(q);
    let ex = |e: BackboneRow| exact_match(q, clean, e);
    let pa = |e: BackboneRow| partial_match(clean, e);
    if text::any_where(backbone(), ex) {
        Some(row_coords(backbone()[text::first_where(backbone(), ex)]))
    } else if text::any_where(backbone(), pa) {
        Some(row_coords(backbone()[text::first_where(backbone(), pa)]))
    } else {
        match cache {
            Some(c) => {
                let cm = |d: CacheRepoDir| cache_match(clean, d);
                if text::any_where(c, cm) {
                    let d = c[text::first_where(c, cm)];
                    Some((d.org@, d.repo@, d.commit_dirs@[0]@))
                } else {
                    None
                }
            },
            None => None,
        }
    }
}

/// View of an optional repository reference.
pub open spec fn opt_ref_view(r: Option<RepoRef>) -> Option<(Seq<char>, Seq<char>, Seq<char>)> {
    match r {
        Some(x) => Some(x@),
        None => None,
    }
}

/// View of an optional cache listing.
pub open spec fn opt_cache_view(c: Option<&Vec<CacheRepoDir>>) -> Option<Seq<CacheRepoDir>> {
    match c {
        Some(v) => Some(v@),
        None => None,
    }
}

fn lower_slash_join(org: &str, repo: &str) -> (r: Vec<char>)
    ensures
        r@ == text::lower(slash_join(org@, repo@)),
{
    let mut v = text::chars_of(org);
    text::push_str(&mut v, "/");
    text::push_str(&mut v, repo);
    let s = text::string_from_chars(&v);
    let l = text::to_lower(s.as_str());
    text::chars_of(l.as_str())
}

fn remove_rs_suffixes(q: &Vec<char>) -> (r: Vec<char>)
    ensures
        r@ == clean_name(q@),
{
    let dash = text::chars_of("-rs");
    let under = text::chars_of("_rs");
    let empty: Vec<char> = Vec::new();
    proof {
        reveal_strlit("-rs");
        reveal_strlit("_rs");
    }
    assert(empty@ =~= Seq::<char>::empty());
    let once = text::replace_chars(q, &dash, &empty);
    text::replace_chars(&once, &under, &empty)
}

/// Trims and lower-cases a query.
pub fn normalize_query(query: &str) -> (r: Vec<char>)
    ensures
        r@ == normalized_query(query@),
{
    let t = text::trim_str(query);
    let ts = text::string_from_chars(&t);
    let l = text::to_lower(ts.as_str());
    text::chars_of(l.as_str())
}

fn make_ref(org: &str, repo: &str, commit: &str) -> (r: RepoRef)
    ensures
        r@ == (org@, repo@, commit@),
{
    RepoRef { org: org.to_owned(), repo: repo.to_owned(), commit: commit.to_owned() }
}

/// Resolve a repository query string (e.g. "syn", "regex", "dtolnay/syn") to
/// graph coordinates: backbone aliases first, then a partial match on them,
/// then the listing of the local cache when one is given.
pub fn resolve_repo(query: &str, cache: Option<&Vec<CacheRepoDir>>) -> (r: Option<RepoRef>)
    ensures
        opt_ref_view(r) == resolve_spec(query@, opt_cache_view(cache)),
{
    let q = normalize_query(query);
    let qs = text::string_from_chars(&q);
    resolve_normalized(qs.as_str(), cache)
}

/// Resolve an already trimmed and lower-cased query, as [`resolve_from`]
/// says.
#[verifier::loop_isolation(false)]
pub fn resolve_normalized(query: &str, cache: Option<&Vec<CacheRepoDir>>) -> (r: Option<RepoRef>)
    ensures
        opt_ref_view(r) == resolve_from(query@, opt_cache_view(cache)),
{
    let q = text::chars_of(query);
    let clean = remove_rs_suffixes(&q);
    let ghost qs = q@;
    let ghost cs = clean@;
    let ghost ex = |e: BackboneRow| exact_match(qs, cs, e);
    let ghost pa = |e: BackboneRow| partial_match(cs, e);
    let t = backbone_table();
    let mut i: usize = 0;
    while i < t.len()
        invariant
            i <= t@.len(),
            t@.len() == backbone().len(),
            forall|k: int|
                0 <= k < t@.len() ==> (#[trigger] t@[k]).0@ == backbone()[k].0 && t@[k].1@
                    == backbone()[k].1 && t@[k].2@ == backbone()[k].2 && t@[k].3@
                    == backbone()[k].3,
            forall|j: int| 0 <= j < i ==> !exact_match(qs, cs, #[trigger] backbone()[j]),
        decreases t.len() - i,
    {
        let (alias, org, repo, commit) = t[i];
        let av = text::chars_of(alias);
        let full = lower_slash_join(org, repo);
        if text::chars_eq(&q, &av) || text::chars_eq(&clean, &av) || text::chars_eq(&q, &full) {
            proof {
                assert(exact_match(qs, cs, backbone()[i as int]));
                assert(text::is_first_where(backbone(), ex, i as int));
                text::lemma_first_where(backbone(), ex, i as int);
            }
            return Some(make_ref(org, repo, commit));
        }
        i = i + 1;
    }
    assert(!text::any_where(backbone(), ex));
    let mut i: usize = 0;
    while i < t.len()
        invariant
            i <= t@.len(),
            t@.len() == backbone().len(),
            forall|k: int|
                0 <= k < t@.len() ==> (#[trigger] t@[k]).0@ == backbone()[k].0 && t@[k].1@
                    == backbone()[k].1 && t@[k].2@ == backbone()[k].2 && t@[k].3@
                    == backbone()[k].3,
            forall|j: int| 0 <= j < i ==> !partial_match(cs, #[trigger] backbone()[j]),
        decreases t.len() - i,
    {
        let (alias, org, repo, commit) = t[i];
        let av = text::chars_of(alias);
        if text::contains_chars(&av, &clean) || text::contains_chars(&clean, &av) {
            proof {
                assert(partial_match(cs, backbone()[i as int]));
                assert(text::is_first_where(backbone(), pa, i as int));
                text::lemma_first_where(backbone(), pa, i as int);
            }
            return Some(make_ref(org, repo, commit));
        }
        i = i + 1;
    }
    assert(!text::any_where(backbone(), pa));
    match cache {
        None => None,
        Some(c) => {
            let ghost cm = |d: CacheRepoDir| cache_match(cs, d);
            let mut k: usize = 0;
            while k < c.len()
                invariant
                    k <= c@.len(),
                    forall|j: int| 0 <= j < k ==> !cache_match(cs, #[trigger] c@[j]),
                decreases c.len() - k,
            {
                let d = &c[k];
                let full = lower_slash_join(d.org.as_str(), d.repo.as_str());
                let lr = text::to_lower(d.repo.as_str());
                let lrv = text::chars_of(lr.as_str());
                if (text::contains_chars(&full, &clean) || text::contains_chars(&lrv, &clean))
                    && d.commit_dirs.len() > 0 {
                    proof {
                        assert(cache_match(cs, c@[k as int]));
                        assert(text::is_first_where(c@, cm, k as int));
                        text::lemma_first_where(c@, cm, k as int);
                    }
                    return Some(
                        RepoRef {
                            org: d.org.clone(),
                            repo: d.repo.clone(),
                            commit: d.commit_dirs[0].clone(),
                        },
                    );
                }
                k = k + 1;
            }
            assert(!text::any_where(c@, cm));
            None
        },
    }
}

} // verus!

verus! {

/// `org/repo` key of a backbone row.
pub open spec fn row_key(e: BackboneRow) -> Seq<char> {
    slash_join(e.1, e.2)
}

/// Row `i` of `s` repeats the key of an earlier row.
pub open spec fn key_seen_before(s: Seq<BackboneRow>, i: int) -> bool {
    exists|j: int| 0 <= j < i && row_key(s[j]) == row_key(s[i])
}

/// The rows of `s` whose `org/repo` key did not occur earlier, in order.
pub open spec fn first_of_each_key(s: Seq<BackboneRow>) -> Seq<BackboneRow>
    decreases s.len(),
{
    if s.len() == 0 {
        Seq::empty()
    } else {
        let d = first_of_each_key(s.drop_last());
        if key_seen_before(s, s.len() - 1) {
            d
        } else {
            d.push(s.last())
        }
    }
}

/// Some backbone row before `i` has key `x`.
pub open spec fn key_in_rows(i: int, x: Seq<char>) -> bool {
    exists|j: int| 0 <= j < i && row_key(backbone()[j]) == x
}

/// Some vector in `seen` holds `x`.
pub open spec fn key_in_seen(seen: Seq<Vec<char>>, x: Seq<char>) -> bool {
    exists|k: int| 0 <= k < seen.len() && (#[trigger] seen[k])@ == x
}

/// All backbone repositories, one per `org/repo`, in table order.
pub fn get_backbone() -> (r: Vec<RepoRef>)
    ensures
        r@.map_values(|x: RepoRef| x@) == first_of_each_key(backbone()).map_values(
            |e: BackboneRow| row_coords(e),
        ),
{
    let t = backbone_table();
    let mut out: Vec<RepoRef> = Vec::new();
    let mut seen: Vec<Vec<char>> = Vec::new();
    let mut i: usize = 0;
    assert(backbone().take(0) =~= Seq::<BackboneRow>::empty());
    while i < t.len()
        invariant
            i <= t@.len(),
            t@.len() == backbone().len(),
            forall|k: int|
                0 <= k < t@.len() ==> (#[trigger] t@[k]).0@ == backbone()[k].0 && t@[k].1@
                    == backbone()[k].1 && t@[k].2@ == backbone()[k].2 && t@[k].3@
                    == backbone()[k].3,
            out@.map_values(|x: RepoRef| x@) == first_of_each_key(
                backbone().take(i as int),
            ).map_values(|e: BackboneRow| row_coords(e)),
            forall|x: Seq<char>| #[trigger] key_in_rows(i as int, x) <==> key_in_seen(seen@, x),
        decreases t.len() - i,
    {
        let (_alias, org, repo, commit) = t[i];
        let mut key = text::chars_of(org);
        text::push_str(&mut key, "/");
        text::push_str(&mut key, repo);
        assert(key@ == row_key(backbone()[i as int]));
        let mut found = false;
        let mut k: usize = 0;
        while k < seen.len()
            invariant
                k <= seen@.len(),
                found <==> exists|m: int| 0 <= m < k && (#[trigger] seen@[m])@ == key@,
            decreases seen.len() - k,
        {
            if text::chars_eq(&seen[k], &key) {
                found = true;
            }
            k = k + 1;
        }
        let ghost s1 = backbone().take(i + 1);
        proof {
            assert(s1.drop_last() =~= backbone().take(i as int));
            assert(s1.last() == backbone()[i as int]);
            assert(key_seen_before(s1, i as int) <==> key_in_rows(i as int, key@)) by {
                if key_seen_before(s1, i as int) {
                    let j = choose|j: int| 0 <= j < i && row_key(s1[j]) == row_key(s1[i as int]);
                    assert(s1[j] == backbone()[j]);
                }
                if exists|j: int| 0 <= j < i && row_key(backbone()[j]) == key@ {
                    let j = choose|j: int| 0 <= j < i && row_key(backbone()[j]) == key@;
                    assert(s1[j] == backbone()[j]);
                }
            }
        }
        if !found {
            let ghost old_out = out@;
            let ghost old_seen = seen@;
            out.push(make_ref(org, repo, commit));
            seen.push(key);
            proof {
                assert(out@.map_values(|x: RepoRef| x@) =~= old_out.map_values(|x: RepoRef| x@).push(
                    row_coords(backbone()[i as int]),
                ));
                assert(first_of_each_key(s1) == first_of_each_key(
                    backbone().take(i as int),
                ).push(backbone()[i as int]));
                assert(first_of_each_key(s1).map_values(|e: BackboneRow| row_coords(e))
                    =~= first_of_each_key(backbone().take(i as int)).map_values(
                    |e: BackboneRow| row_coords(e),
                ).push(row_coords(backbone()[i as int])));
                assert forall|x: Seq<char>|
                    #[trigger] key_in_rows(i + 1, x) <==> key_in_seen(seen@, x) by {
                    assert(key_in_rows(i as int, x) <==> key_in_seen(old_seen, x));
                    if exists|j: int| 0 <= j < i + 1 && row_key(backbone()[j]) == x {
                        let j = choose|j: int| 0 <= j < i + 1 && row_key(backbone()[j]) == x;
                        if j < i {
                            let k = choose|k: int|
                                0 <= k < old_seen.len() && (#[trigger] old_seen[k])@ == x;
                            assert(seen@[k] == old_seen[k]);
                        } else {
                            assert(seen@[old_seen.len() as int]@ == x);
                        }
                    }
                    if exists|k: int| 0 <= k < seen@.len() && (#[trigger] seen@[k])@ == x {
                        let k = choose|k: int| 0 <= k < seen@.len() && (#[trigger] seen@[k])@ == x;
                        if k < old_seen.len() {
                            assert(old_seen[k] == seen@[k]);
                        }
                    }
                }
            }
        } else {
            proof {
                assert(first_of_each_key(s1) == first_of_each_key(backbone().take(i as int)));
                assert forall|x: Seq<char>|
                    #[trigger] key_in_rows(i + 1, x) <==> key_in_seen(seen@, x) by {
                    assert(key_in_rows(i as int, x) <==> key_in_seen(seen@, x));
                    if key_in_rows(i + 1, x) {
                        let j = choose|j: int| 0 <= j < i + 1 && row_key(backbone()[j]) == x;
                        if j == i {
                            assert(key_in_seen(seen@, key@));
                        }
                    }
                }
            }
        }
        i = i + 1;
    }
    assert(backbone().take(t@.len() as int) =~= backbone());
    out
}


proof fn lemma_first_of_each_key_from_s(s: Seq<BackboneRow>)
    ensures
        forall|i: int|
            0 <= i < first_of_each_key(s).len() ==> exists|k: int|
                0 <= k < s.len() && #[trigger] first_of_each_key(s)[i] == s[k],
    decreases s.len(),
{
    if s.len() > 0 {
        let p = s.drop_last();
        lemma_first_of_each_key_from_s(p);
        let d = first_of_each_key(p);
        let r = first_of_each_key(s);
        assert forall|i: int| 0 <= i < r.len() implies exists|k: int|
            0 <= k < s.len() && #[trigger] r[i] == s[k] by {
            if i < d.len() {
                assert(r[i] == d[i]);
                let k = choose|k: int| 0 <= k < p.len() && #[trigger] d[i] == p[k];
                assert(p[k] == s[k]);
            } else {
                assert(r[i] == s[s.len() - 1]);
            }
        }
    }
}

#[verifier::rlimit(30)]
proof fn lemma_first_of_each_key_unique(s: Seq<BackboneRow>)
    ensures
        forall|i: int, j: int|
            0 <= i < j < first_of_each_key(s).len() ==> row_key(#[trigger] first_of_each_key(s)[i])
                != row_key(#[trigger] first_of_each_key(s)[j]),
    decreases s.len(),
{
    if s.len() > 0 {
        let p = s.drop_last();
        lemma_first_of_each_key_unique(p);
        lemma_first_of_each_key_from_s(p);
        let d = first_of_each_key(p);
        let r = first_of_each_key(s);
        if !key_seen_before(s, s.len() - 1) {
            assert forall|i: int, j: int| 0 <= i < j < r.len() implies row_key(#[trigger] r[i])
                != row_key(#[trigger] r[j]) by {
                assert(r[i] == d[i]);
                if j == r.len() - 1 {
                    let k = choose|k: int| 0 <= k < p.len() && #[trigger] d[i] == p[k];
                    assert(p[k] == s[k]);
                    assert(!(row_key(s[k]) == row_key(s[s.len() - 1])));
                } else {
                    assert(r[j] == d[j]);
                }
            }
        }
    }
}

#[verifier::rlimit(30)]
proof fn lemma_first_of_each_key_covers(s: Seq<BackboneRow>)
    ensures
        forall|k: int|
            0 <= k < s.len() ==> exists|i: int|
                0 <= i < first_of_each_key(s).len() && row_key(first_of_each_key(s)[i]) == row_key(
                    #[trigger] s[k],
                ),
    decreases s.len(),
{
    if s.len() > 0 {
        let p = s.drop_last();
        lemma_first_of_each_key_covers(p);
        let d = first_of_each_key(p);
        let r = first_of_each_key(s);
        assert forall|k: int| 0 <= k < s.len() implies exists|i: int|
            0 <= i < r.len() && row_key(r[i]) == row_key(#[trigger] s[k]) by {
            if k < p.len() {
                assert(p[k] == s[k]);
                let i = choose|i: int| 0 <= i < d.len() && row_key(d[i]) == row_key(#[trigger] p[k]);
                assert(r[i] == d[i]);
            } else if key_seen_before(s, s.len() - 1) {
                let j = choose|j: int| 0 <= j < s.len() - 1 && row_key(#[trigger] s[j]) == row_key(s[s.len() - 1]);
                assert(p[j] == s[j]);
                let i = choose|i: int| 0 <= i < d.len() && row_key(d[i]) == row_key(#[trigger] p[j]);
                assert(r[i] == d[i]);
            } else {
                assert(r[d.len() as int] == s[k]);
            }
        }
    }
}

/// The backbone lists each repository once: no two entries share an
/// `org/repo`, every row of the backbone table is represented by an entry
/// with its `org/repo`, and every entry is a row of the table.
pub proof fn law_backbone_unique_and_complete()
    ensures
        forall|i: int, j: int|
            0 <= i < j < first_of_each_key(backbone()).len() ==> row_key(
                first_of_each_key(backbone())[i],
            ) != row_key(first_of_each_key(backbone())[j]),
        forall|k: int|
            0 <= k < backbone().len() ==> exists|i: int|
                0 <= i < first_of_each_key(backbone()).len() && row_key(
                    first_of_each_key(backbone())[i],
                ) == row_key(#[trigger] backbone()[k]),
        forall|i: int|
            0 <= i < first_of_each_key(backbone()).len() ==> exists|k: int|
                0 <= k < backbone().len() && #[trigger] first_of_each_key(backbone())[i]
                    == backbone()[k],
{
    lemma_first_of_each_key_unique(backbone());
    lemma_first_of_each_key_covers(backbone());
    lemma_first_of_each_key_from_s(backbone());
}

/// Every commit of the backbone is forty lower-case hexadecimal digits.
pub proof fn law_backbone_commits_are_hex()
    ensures
        forall|k: int|
            0 <= k < backbone().len() ==> text::is_hex_seq(#[trigger] backbone()[k].3) && backbone()[k].3.len()
                == 40,
{
    assert forall|k: int| 0 <= k < backbone().len() implies text::is_hex_seq(#[trigger] backbone()[k].3)
        && backbone()[k].3.len() == 40 by {
        if k == 0 {
            reveal_strlit("550a8e5a1a7b121bd970eff3e7575acd158f6bb8");
        } else if k == 1 {
            reveal_strlit("d79791e26e44dbd3667f05caa6a97fcd12b3d146");
        } else if k == 2 {
            reveal_strlit("5723cf486522d47aad26390cf5b02e95654ae225");
        } else if k == 3 {
            reveal_strlit("5723cf486522d47aad26390cf5b02e95654ae225");
        } else if k == 4 {
            reveal_strlit("25a15e272b3ae5aee76b525902c2ab91b0d9e12e");
        } else if k == 5 {
            reveal_strlit("d84a5073d5108fce1774b375105dfdb13fe4e81c");
        } else if k == 6 {
            reveal_strlit("886ca4ca4820297191c6e9f7b023dc356f31a4d1");
        } else if k == 7 {
            reveal_strlit("4f26be4d450910916ea11533b2efc52b9a6483bc");
        } else if k == 8 {
            reveal_strlit("c59208c86fded335cd85e388030ad59347b0e5ae");
        } else if k == 9 {
            reveal_strlit("417dccdeff249e0c011327de7d92e0d6fbe7cc43");
        } else if k == 10 {
            reveal_strlit("7bcb37cdb3399977658c8b52d2441d37e42e48f2");
        } else if k == 11 {
            reveal_strlit("842ffde933fdd76cd1681a288bed136d8b95a97a");
        } else if k == 12 {
            reveal_strlit("58ab776b95a4c2865554badbb6629c50971a9118");
        } else if k == 13 {
            reveal_strlit("5c657b32522023a9f7ef883fb08582fd8e656b1a");
        } else if k == 14 {
            reveal_strlit("7fc3b4c30c94f73a96ebd1553f2b090d928fc3a8");
        } else if k == 15 {
            reveal_strlit("4f6dbfac79647d032b0997b5ab73022340c6dab7");
        } else if k == 16 {
            reveal_strlit("239dd83a4ced08e514d2c38942aab99791119f0d");
        } else if k == 17 {
            reveal_strlit("f3417ae86f015b9d0d8789b8fa11e64f9fec0adf");
        } else if k == 18 {
            reveal_strlit("b863968301f0e889fa04afc590d7e2c9a4100dc3");
        } else if k == 19 {
            reveal_strlit("b863968301f0e889fa04afc590d7e2c9a4100dc3");
        } else if k == 20 {
            reveal_strlit("93c81772305a102f1ec846bd12713dd7bf1e3f04");
        } else if k == 21 {
            reveal_strlit("93c81772305a102f1ec846bd12713dd7bf1e3f04");
        } else if k == 22 {
            reveal_strlit("86d92e8d284b0acd451e7b6db6bdef41ae9c9db4");
        } else if k == 23 {
            reveal_strlit("a150f65ce810793293d5c9dd815f4510eb6d8e4c");
        } else if k == 24 {
            reveal_strlit("b9625d83b524f7a8306883484f29a746eefc1bab");
        } else if k == 25 {
            reveal_strlit("0d6c7d5469baa09e2fb127ee3758a79b3271a4f0");
        } else if k == 26 {
            reveal_strlit("ad83b63824385a4e5758d263db707549bbe59ba7");
        } else if k == 27 {
            reveal_strlit("995b59f66677d44767ce9faac6957e5543617ff9");
        } else if k == 28 {
            reveal_strlit("4dec426aa2a6cbabb1b064319ba7c272d594a688");
        }
    }
}

/// The `org/repo` keys of the backbone rows, lower-cased.
pub open spec fn lower_keys() -> Seq<Seq<char>> {
    seq![
        "repolex-ai/rlex"@,
        "repolex-ai/git-lex"@,
        "actix/actix-web"@,
        "actix/actix-web"@,
        "rust-lang/regex"@,
        "burntsushi/aho-corasick"@,
        "burntsushi/memchr"@,
        "burntsushi/walkdir"@,
        "tokio-rs/axum"@,
        "tokio-rs/bytes"@,
        "dtolnay/syn"@,
        "dtolnay/quote"@,
        "dtolnay/proc-macro2"@,
        "dtolnay/anyhow"@,
        "serde-rs/serde"@,
        "serde-rs/json"@,
        "rust-lang/socket2"@,
        "rust-lang/libc"@,
        "rust-lang/git2-rs"@,
        "rust-lang/git2-rs"@,
        "rust-lang/flate2-rs"@,
        "rust-lang/flate2-rs"@,
        "frommi/miniz_oxide"@,
        "srijs/rust-crc32fast"@,
        "hyperium/http"@,
        "hyperium/hyper"@,
        "seanmonstar/reqwest"@,
        "ruby/ruby"@,
        "jquery/jquery"@,
    ]
}

pub proof fn lemma_plain_key(key: Seq<char>, l: Seq<char>)
    requires
        key.len() > 0,
        !text::is_white(key[0]),
        !text::is_white(key.last()),
        text::is_ascii_seq(key),
        text::ascii_lower_seq(key) == l,
    ensures
        normalized_query(key) == l,
        text::lower(key) == l,
{
    text::lemma_trim_unchanged(key);
}

/// Facts about each backbone row: its alias holds no `/`, and its `org/repo`
/// key, trimmed and lower-cased, is the row's entry of `lower_keys`, which
/// holds a `/`.
#[verifier::spinoff_prover]
#[verifier::rlimit(40)]
proof fn lemma_backbone_keys()
    ensures
        lower_keys().len() == backbone().len(),
        forall|i: int|
            0 <= i < backbone().len() ==> {
                &&& !text::has_char(#[trigger] backbone()[i].0, '/')
                &&& normalized_query(slash_join(backbone()[i].1, backbone()[i].2)) == lower_keys()[i]
                &&& text::lower(slash_join(backbone()[i].1, backbone()[i].2)) == lower_keys()[i]
                &&& text::has_char(lower_keys()[i], '/')
            },
{
    reveal_strlit("/");
    assert forall|i: int| 0 <= i < backbone().len() implies {
        &&& !text::has_char(#[trigger] backbone()[i].0, '/')
        &&& normalized_query(slash_join(backbone()[i].1, backbone()[i].2)) == lower_keys()[i]
        &&& text::lower(slash_join(backbone()[i].1, backbone()[i].2)) == lower_keys()[i]
        &&& text::has_char(lower_keys()[i], '/')
    } by {
        if i == 0 {
            reveal_strlit("rlex");
            reveal_strlit("repolex-ai");
            reveal_strlit("rlex");
            reveal_strlit("repolex-ai/rlex");
            reveal_strlit("repolex-ai/rlex");
            assert(slash_join(backbone()[i].1, backbone()[i].2) =~= "repolex-ai/rlex"@);
            assert(text::ascii_lower_seq("repolex-ai/rlex"@) =~= "repolex-ai/rlex"@);
            assert("repolex-ai/rlex"@[10] == '/');
            lemma_plain_key("repolex-ai/rlex"@, "repolex-ai/rlex"@);
        } else if i == 1 {
            reveal_strlit("git-lex");
            reveal_strlit("repolex-ai");
            reveal_strlit("git-lex");
            reveal_strlit("repolex-ai/git-lex");
            reveal_strlit("repolex-ai/git-lex");
            assert(slash_join(backbone()[i].1, backbone()[i].2) =~= "repolex-ai/git-lex"@);
            assert(text::ascii_lower_seq("repolex-ai/git-lex"@) =~= "repolex-ai/git-lex"@);
            assert("repolex-ai/git-lex"@[10] == '/');
            lemma_plain_key("repolex-ai/git-lex"@, "repolex-ai/git-lex"@);
        } else if i == 2 {
            reveal_strlit("actix");
            reveal_strlit("actix");
            reveal_strlit("actix-web");
            reveal_strlit("actix/actix-web");
            reveal_strlit("actix/actix-web");
            assert(slash_join(backbone()[i].1, backbone()[i].2) =~= "actix/actix-web"@);
            assert(text::ascii_lower_seq("actix/actix-web"@) =~= "actix/actix-web"@);
            assert("actix/actix-web"@[5] == '/');
            lemma_plain_key("actix/actix-web"@, "actix/actix-web"@);
        } else if i == 3 {
            reveal_strlit("actix-web");
            reveal_strlit("actix");
            reveal_strlit("actix-web");
            reveal_strlit("actix/actix-web");
            reveal_strlit("actix/actix-web");
            assert(slash_join(backbone()[i].1, backbone()[i].2) =~= "actix/actix-web"@);
            assert(text::ascii_lower_seq("actix/actix-web"@) =~= "actix/actix-web"@);
            assert("actix/actix-web"@[5] == '/');
            lemma_plain_key("actix/actix-web"@, "actix/actix-web"@);
        } else if i == 4 {
            reveal_strlit("regex");
            reveal_strlit("rust-lang");
            reveal_strlit("regex");
            reveal_strlit("rust-lang/regex");
            reveal_strlit("rust-lang/regex");
            assert(slash_join(backbone()[i].1, backbone()[i].2) =~= "rust-lang/regex"@);
            assert(text::ascii_lower_seq("rust-lang/regex"@) =~= "rust-lang/regex"@);
            assert("rust-lang/regex"@[9] == '/');
            lemma_plain_key("rust-lang/regex"@, "rust-lang/regex"@);
        } else if i == 5 {
            reveal_strlit("aho-corasick");
            reveal_strlit("BurntSushi");
            reveal_strlit("aho-corasick");
            reveal_strlit("BurntSushi/aho-corasick");
            reveal_strlit("burntsushi/aho-corasick");
            assert(slash_join(backbone()[i].1, backbone()[i].2) =~= "BurntSushi/aho-corasick"@);
            assert(text::ascii_lower_seq("BurntSushi/aho-corasick"@) =~= "burntsushi/aho-corasick"@);
            assert("burntsushi/aho-corasick"@[10] == '/');
            lemma_plain_key("BurntSushi/aho-corasick"@, "burntsushi/aho-corasick"@);
        } else if i == 6 {
            reveal_strlit("memchr");
            reveal_strlit("BurntSushi");
            reveal_strlit("memchr");
            reveal_strlit("BurntSushi/memchr");
            reveal_strlit("burntsushi/memchr");
            assert(slash_join(backbone()[i].1, backbone()[i].2) =~= "BurntSushi/memchr"@);
            assert(text::ascii_lower_seq("BurntSushi/memchr"@) =~= "burntsushi/memchr"@);
            assert("burntsushi/memchr"@[10] == '/');
            lemma_plain_key("BurntSushi/memchr"@, "burntsushi/memchr"@);
        } else if i == 7 {
            reveal_strlit("walkdir");
            reveal_strlit("BurntSushi");
            reveal_strlit("walkdir");
            reveal_strlit("BurntSushi/walkdir");
            reveal_strlit("burntsushi/walkdir");
            assert(slash_join(backbone()[i].1, backbone()[i].2) =~= "BurntSushi/walkdir"@);
            assert(text::ascii_lower_seq("BurntSushi/walkdir"@) =~= "burntsushi/walkdir"@);
            assert("burntsushi/walkdir"@[10] == '/');
            lemma_plain_key("BurntSushi/walkdir"@, "burntsushi/walkdir"@);
        } else if i == 8 {
            reveal_strlit("axum");
            reveal_strlit("tokio-rs");
            reveal_strlit("axum");
            reveal_strlit("tokio-rs/axum");
            reveal_strlit("tokio-rs/axum");
            assert(slash_join(backbone()[i].1, backbone()[i].2) =~= "tokio-rs/axum"@);
            assert(text::ascii_lower_seq("tokio-rs/axum"@) =~= "tokio-rs/axum"@);
            assert("tokio-rs/axum"@[8] == '/');
            lemma_plain_key("tokio-rs/axum"@, "tokio-rs/axum"@);
        } else if i == 9 {
            reveal_strlit("bytes");
            reveal_strlit("tokio-rs");
            reveal_strlit("bytes");
            reveal_strlit("tokio-rs/bytes");
            reveal_strlit("tokio-rs/bytes");
            assert(slash_join(backbone()[i].1, backbone()[i].2) =~= "tokio-rs/bytes"@);
            assert(text::ascii_lower_seq("tokio-rs/bytes"@) =~= "tokio-rs/bytes"@);
            assert("tokio-rs/bytes"@[8] == '/');
            lemma_plain_key("tokio-rs/bytes"@, "tokio-rs/bytes"@);
        } else if i == 10 {
            reveal_strlit("syn");
            reveal_strlit("dtolnay");
            reveal_strlit("syn");
            reveal_strlit("dtolnay/syn");
            reveal_strlit("dtolnay/syn");
            assert(slash_join(backbone()[i].1, backbone()[i].2) =~= "dtolnay/syn"@);
            assert(text::ascii_lower_seq("dtolnay/syn"@) =~= "dtolnay/syn"@);
            assert("dtolnay/syn"@[7] == '/');
            lemma_plain_key("dtolnay/syn"@, "dtolnay/syn"@);
        } else if i == 11 {
            reveal_strlit("quote");
            reveal_strlit("dtolnay");
            reveal_strlit("quote");
            reveal_strlit("dtolnay/quote");
            reveal_strlit("dtolnay/quote");
            assert(slash_join(backbone()[i].1, backbone()[i].2) =~= "dtolnay/quote"@);
            assert(text::ascii_lower_seq("dtolnay/quote"@) =~= "dtolnay/quote"@);
            assert("dtolnay/quote"@[7] == '/');
            lemma_plain_key("dtolnay/quote"@, "dtolnay/quote"@);
        } else if i == 12 {
            reveal_strlit("proc-macro2");
            reveal_strlit("dtolnay");
            reveal_strlit("proc-macro2");
            reveal_strlit("dtolnay/proc-macro2");
            reveal_strlit("dtolnay/proc-macro2");
            assert(slash_join(backbone()[i].1, backbone()[i].2) =~= "dtolnay/proc-macro2"@);
            assert(text::ascii_lower_seq("dtolnay/proc-macro2"@) =~= "dtolnay/proc-macro2"@);
            assert("dtolnay/proc-macro2"@[7] == '/');
            lemma_plain_key("dtolnay/proc-macro2"@, "dtolnay/proc-macro2"@);
        } else if i == 13 {
            reveal_strlit("anyhow");
            reveal_strlit("dtolnay");
            reveal_strlit("anyhow");
            reveal_strlit("dtolnay/anyhow");
            reveal_strlit("dtolnay/anyhow");
            assert(slash_join(backbone()[i].1, backbone()[i].2) =~= "dtolnay/anyhow"@);
            assert(text::ascii_lower_seq("dtolnay/anyhow"@) =~= "dtolnay/anyhow"@);
            assert("dtolnay/anyhow"@[7] == '/');
            lemma_plain_key("dtolnay/anyhow"@, "dtolnay/anyhow"@);
        } else if i == 14 {
            reveal_strlit("serde");
            reveal_strlit("serde-rs");
            reveal_strlit("serde");
            reveal_strlit("serde-rs/serde");
            reveal_strlit("serde-rs/serde");
            assert(slash_join(backbone()[i].1, backbone()[i].2) =~= "serde-rs/serde"@);
            assert(text::ascii_lower_seq("serde-rs/serde"@) =~= "serde-rs/serde"@);
            assert("serde-rs/serde"@[8] == '/');
            lemma_plain_key("serde-rs/serde"@, "serde-rs/serde"@);
        } else if i == 15 {
            reveal_strlit("serde-json");
            reveal_strlit("serde-rs");
            reveal_strlit("json");
            reveal_strlit("serde-rs/json");
            reveal_strlit("serde-rs/json");
            assert(slash_join(backbone()[i].1, backbone()[i].2) =~= "serde-rs/json"@);
            assert(text::ascii_lower_seq("serde-rs/json"@) =~= "serde-rs/json"@);
            assert("serde-rs/json"@[8] == '/');
            lemma_plain_key("serde-rs/json"@, "serde-rs/json"@);
        } else if i == 16 {
            reveal_strlit("socket2");
            reveal_strlit("rust-lang");
            reveal_strlit("socket2");
            reveal_strlit("rust-lang/socket2");
            reveal_strlit("rust-lang/socket2");
            assert(slash_join(backbone()[i].1, backbone()[i].2) =~= "rust-lang/socket2"@);
            assert(text::ascii_lower_seq("rust-lang/socket2"@) =~= "rust-lang/socket2"@);
            assert("rust-lang/socket2"@[9] == '/');
            lemma_plain_key("rust-lang/socket2"@, "rust-lang/socket2"@);
        } else if i == 17 {
            reveal_strlit("libc");
            reveal_strlit("rust-lang");
            reveal_strlit("libc");
            reveal_strlit("rust-lang/libc");
            reveal_strlit("rust-lang/libc");
            assert(slash_join(backbone()[i].1, backbone()[i].2) =~= "rust-lang/libc"@);
            assert(text::ascii_lower_seq("rust-lang/libc"@) =~= "rust-lang/libc"@);
            assert("rust-lang/libc"@[9] == '/');
            lemma_plain_key("rust-lang/libc"@, "rust-lang/libc"@);
        } else if i == 18 {
            reveal_strlit("git2");
            reveal_strlit("rust-lang");
            reveal_strlit("git2-rs");
            reveal_strlit("rust-lang/git2-rs");
            reveal_strlit("rust-lang/git2-rs");
            assert(slash_join(backbone()[i].1, backbone()[i].2) =~= "rust-lang/git2-rs"@);
            assert(text::ascii_lower_seq("rust-lang/git2-rs"@) =~= "rust-lang/git2-rs"@);
            assert("rust-lang/git2-rs"@[9] == '/');
            lemma_plain_key("rust-lang/git2-rs"@, "rust-lang/git2-rs"@);
        } else if i == 19 {
            reveal_strlit("git2-rs");
            reveal_strlit("rust-lang");
            reveal_strlit("git2-rs");
            reveal_strlit("rust-lang/git2-rs");
            reveal_strlit("rust-lang/git2-rs");
            assert(slash_join(backbone()[i].1, backbone()[i].2) =~= "rust-lang/git2-rs"@);
            assert(text::ascii_lower_seq("rust-lang/git2-rs"@) =~= "rust-lang/git2-rs"@);
            assert("rust-lang/git2-rs"@[9] == '/');
            lemma_plain_key("rust-lang/git2-rs"@, "rust-lang/git2-rs"@);
        } else if i == 20 {
            reveal_strlit("flate2");
            reveal_strlit("rust-lang");
            reveal_strlit("flate2-rs");
            reveal_strlit("rust-lang/flate2-rs");
            reveal_strlit("rust-lang/flate2-rs");
            assert(slash_join(backbone()[i].1, backbone()[i].2) =~= "rust-lang/flate2-rs"@);
            assert(text::ascii_lower_seq("rust-lang/flate2-rs"@) =~= "rust-lang/flate2-rs"@);
            assert("rust-lang/flate2-rs"@[9] == '/');
            lemma_plain_key("rust-lang/flate2-rs"@, "rust-lang/flate2-rs"@);
        } else if i == 21 {
            reveal_strlit("flate2-rs");
            reveal_strlit("rust-lang");
            reveal_strlit("flate2-rs");
            reveal_strlit("rust-lang/flate2-rs");
            reveal_strlit("rust-lang/flate2-rs");
            assert(slash_join(backbone()[i].1, backbone()[i].2) =~= "rust-lang/flate2-rs"@);
            assert(text::ascii_lower_seq("rust-lang/flate2-rs"@) =~= "rust-lang/flate2-rs"@);
            assert("rust-lang/flate2-rs"@[9] == '/');
            lemma_plain_key("rust-lang/flate2-rs"@, "rust-lang/flate2-rs"@);
        } else if i == 22 {
            reveal_strlit("miniz_oxide");
            reveal_strlit("Frommi");
            reveal_strlit("miniz_oxide");
            reveal_strlit("Frommi/miniz_oxide");
            reveal_strlit("frommi/miniz_oxide");
            assert(slash_join(backbone()[i].1, backbone()[i].2) =~= "Frommi/miniz_oxide"@);
            assert(text::ascii_lower_seq("Frommi/miniz_oxide"@) =~= "frommi/miniz_oxide"@);
            assert("frommi/miniz_oxide"@[6] == '/');
            lemma_plain_key("Frommi/miniz_oxide"@, "frommi/miniz_oxide"@);
        } else if i == 23 {
            reveal_strlit("crc32fast");
            reveal_strlit("srijs");
            reveal_strlit("rust-crc32fast");
            reveal_strlit("srijs/rust-crc32fast");
            reveal_strlit("srijs/rust-crc32fast");
            assert(slash_join(backbone()[i].1, backbone()[i].2) =~= "srijs/rust-crc32fast"@);
            assert(text::ascii_lower_seq("srijs/rust-crc32fast"@) =~= "srijs/rust-crc32fast"@);
            assert("srijs/rust-crc32fast"@[5] == '/');
            lemma_plain_key("srijs/rust-crc32fast"@, "srijs/rust-crc32fast"@);
        } else if i == 24 {
            reveal_strlit("http");
            reveal_strlit("hyperium");
            reveal_strlit("http");
            reveal_strlit("hyperium/http");
            reveal_strlit("hyperium/http");
            assert(slash_join(backbone()[i].1, backbone()[i].2) =~= "hyperium/http"@);
            assert(text::ascii_lower_seq("hyperium/http"@) =~= "hyperium/http"@);
            assert("hyperium/http"@[8] == '/');
            lemma_plain_key("hyperium/http"@, "hyperium/http"@);
        } else if i == 25 {
            reveal_strlit("hyper");
            reveal_strlit("hyperium");
            reveal_strlit("hyper");
            reveal_strlit("hyperium/hyper");
            reveal_strlit("hyperium/hyper");
            assert(slash_join(backbone()[i].1, backbone()[i].2) =~= "hyperium/hyper"@);
            assert(text::ascii_lower_seq("hyperium/hyper"@) =~= "hyperium/hyper"@);
            assert("hyperium/hyper"@[8] == '/');
            lemma_plain_key("hyperium/hyper"@, "hyperium/hyper"@);
        } else if i == 26 {
            reveal_strlit("reqwest");
            reveal_strlit("seanmonstar");
            reveal_strlit("reqwest");
            reveal_strlit("seanmonstar/reqwest");
            reveal_strlit("seanmonstar/reqwest");
            assert(slash_join(backbone()[i].1, backbone()[i].2) =~= "seanmonstar/reqwest"@);
            assert(text::ascii_lower_seq("seanmonstar/reqwest"@) =~= "seanmonstar/reqwest"@);
            assert("seanmonstar/reqwest"@[11] == '/');
            lemma_plain_key("seanmonstar/reqwest"@, "seanmonstar/reqwest"@);
        } else if i == 27 {
            reveal_strlit("ruby");
            reveal_strlit("ruby");
            reveal_strlit("ruby");
            reveal_strlit("ruby/ruby");
            reveal_strlit("ruby/ruby");
            assert(slash_join(backbone()[i].1, backbone()[i].2) =~= "ruby/ruby"@);
            assert(text::ascii_lower_seq("ruby/ruby"@) =~= "ruby/ruby"@);
            assert("ruby/ruby"@[4] == '/');
            lemma_plain_key("ruby/ruby"@, "ruby/ruby"@);
        } else if i == 28 {
            reveal_strlit("jquery");
            reveal_strlit("jquery");
            reveal_strlit("jquery");
            reveal_strlit("jquery/jquery");
            reveal_strlit("jquery/jquery");
            assert(slash_join(backbone()[i].1, backbone()[i].2) =~= "jquery/jquery"@);
            assert(text::ascii_lower_seq("jquery/jquery"@) =~= "jquery/jquery"@);
            assert("jquery/jquery"@[6] == '/');
            lemma_plain_key("jquery/jquery"@, "jquery/jquery"@);
        }
    }
}

proof fn lemma_keys_agree_0()
    ensures
        forall|j: int|
            0 < j < lower_keys().len() && #[trigger] lower_keys()[j] == lower_keys()[0] ==> row_coords(
                backbone()[j],
            ) == row_coords(backbone()[0]),
{
    assert forall|j: int| 0 < j < lower_keys().len() && #[trigger] lower_keys()[j] == lower_keys()[0] implies row_coords(
        backbone()[j],
    ) == row_coords(backbone()[0]) by {
        let i = 0int;
        if j == 1 {
            reveal_strlit("repolex-ai/rlex");
            reveal_strlit("repolex-ai/git-lex");
            assert(lower_keys()[i].len() != lower_keys()[j].len());
        } else if j == 2 {
            reveal_strlit("repolex-ai/rlex");
            reveal_strlit("actix/actix-web");
            assert(lower_keys()[i][0] != lower_keys()[j][0]);
        } else if j == 3 {
            reveal_strlit("repolex-ai/rlex");
            reveal_strlit("actix/actix-web");
            assert(lower_keys()[i][0] != lower_keys()[j][0]);
        } else if j == 4 {
            reveal_strlit("repolex-ai/rlex");
            reveal_strlit("rust-lang/regex");
            assert(lower_keys()[i][1] != lower_keys()[j][1]);
        } else if j == 5 {
            reveal_strlit("repolex-ai/rlex");
            reveal_strlit("burntsushi/aho-corasick");
            assert(lower_keys()[i].len() != lower_keys()[j].len());
        } else if j == 6 {
            reveal_strlit("repolex-ai/rlex");
            reveal_strlit("burntsushi/memchr");
            assert(lower_keys()[i].len() != lower_keys()[j].len());
        } else if j == 7 {
            reveal_strlit("repolex-ai/rlex");
            reveal_strlit("burntsushi/walkdir");
            assert(lower_keys()[i].len() != lower_keys()[j].len());
        } else if j == 8 {
            reveal_strlit("repolex-ai/rlex");
            reveal_strlit("tokio-rs/axum");
            assert(lower_keys()[i].len() != lower_keys()[j].len());
        } else if j == 9 {
            reveal_strlit("repolex-ai/rlex");
            reveal_strlit("tokio-rs/bytes");
            assert(lower_keys()[i].len() != lower_keys()[j].len());
        } else if j == 10 {
            reveal_strlit("repolex-ai/rlex");
            reveal_strlit("dtolnay/syn");
            assert(lower_keys()[i].len() != lower_keys()[j].len());
        } else if j == 11 {
            reveal_strlit("repolex-ai/rlex");
            reveal_strlit("dtolnay/quote");
            assert(lower_keys()[i].len() != lower_keys()[j].len());
        } else if j == 12 {
            reveal_strlit("repolex-ai/rlex");
            reveal_strlit("dtolnay/proc-macro2");
            assert(lower_keys()[i].len() != lower_keys()[j].len());
        } else if j == 13 {
            reveal_strlit("repolex-ai/rlex");
            reveal_strlit("dtolnay/anyhow");
            assert(lower_keys()[i].len() != lower_keys()[j].len());
        } else if j == 14 {
            reveal_strlit("repolex-ai/rlex");
            reveal_strlit("serde-rs/serde");
            assert(lower_keys()[i].len() != lower_keys()[j].len());
        } else if j == 15 {
            reveal_strlit("repolex-ai/rlex");
            reveal_strlit("serde-rs/json");
            assert(lower_keys()[i].len() != lower_keys()[j].len());
        } else if j == 16 {
            reveal_strlit("repolex-ai/rlex");
            reveal_strlit("rust-lang/socket2");
            assert(lower_keys()[i].len() != lower_keys()[j].len());
        } else if j == 17 {
            reveal_strlit("repolex-ai/rlex");
            reveal_strlit("rust-lang/libc");
            assert(lower_keys()[i].len() != lower_keys()[j].len());
        } else if j == 18 {
            reveal_strlit("repolex-ai/rlex");
            reveal_strlit("rust-lang/git2-rs");
            assert(lower_keys()[i].len() != lower_keys()[j].len());
        } else if j == 19 {
            reveal_strlit("repolex-ai/rlex");
            reveal_strlit("rust-lang/git2-rs");
            assert(lower_keys()[i].len() != lower_keys()[j].len());
        } else if j == 20 {
            reveal_strlit("repolex-ai/rlex");
            reveal_strlit("rust-lang/flate2-rs");
            assert(lower_keys()[i].len() != lower_keys()[j].len());
        } else if j == 21 {
            reveal_strlit("repolex-ai/rlex");
            reveal_strlit("rust-lang/flate2-rs");
            assert(lower_keys()[i].len() != lower_keys()[j].len());
        } else if j == 22 {
            reveal_strlit("repolex-ai/rlex");
            reveal_strlit("frommi/miniz_oxide");
            assert(lower_keys()[i].len() != lower_keys()[j].len());
        } else if j == 23 {
            reveal_strlit("repolex-ai/rlex");
            reveal_strlit("srijs/rust-crc32fast");
            assert(lower_keys()[i].len() != lower_keys()[j].len());
        } else if j == 24 {
            reveal_strlit("repolex-ai/rlex");
            reveal_strlit("hyperium/http");
            assert(lower_keys()[i].len() != lower_keys()[j].len());
        } else if j == 25 {
            reveal_strlit("repolex-ai/rlex");
            reveal_strlit("hyperium/hyper");
            assert(lower_keys()[i].len() != lower_keys()[j].len());
        } else if j == 26 {
            reveal_strlit("repolex-ai/rlex");
            reveal_strlit("seanmonstar/reqwest");
            assert(lower_keys()[i].len() != lower_keys()[j].len());
        } else if j == 27 {
            reveal_strlit("repolex-ai/rlex");
            reveal_strlit("ruby/ruby");
            assert(lower_keys()[i].len() != lower_keys()[j].len());
        } else if j == 28 {
            reveal_strlit("repolex-ai/rlex");
            reveal_strlit("jquery/jquery");
            assert(lower_keys()[i].len() != lower_keys()[j].len());
        }
    }
}

proof fn lemma_keys_agree_1()
    ensures
        forall|j: int|
            1 < j < lower_keys().len() && #[trigger] lower_keys()[j] == lower_keys()[1] ==> row_coords(
                backbone()[j],
            ) == row_coords(backbone()[1]),
{
    assert forall|j: int| 1 < j < lower_keys().len() && #[trigger] lower_keys()[j] == lower_keys()[1] implies row_coords(
        backbone()[j],
    ) == row_coords(backbone()[1]) by {
        let i = 1int;
        if j == 2 {
            reveal_strlit("repolex-ai/git-lex");
            reveal_strlit("actix/actix-web");
            assert(lower_keys()[i].len() != lower_keys()[j].len());
        } else if j == 3 {
            reveal_strlit("repolex-ai/git-lex");
            reveal_strlit("actix/actix-web");
            assert(lower_keys()[i].len() != lower_keys()[j].len());
        } else if j == 4 {
            reveal_strlit("repolex-ai/git-lex");
            reveal_strlit("rust-lang/regex");
            assert(lower_keys()[i].len() != lower_keys()[j].len());
        } else if j == 5 {
            reveal_strlit("repolex-ai/git-lex");
            reveal_strlit("burntsushi/aho-corasick");
            assert(lower_keys()[i].len() != lower_keys()[j].len());
        } else if j == 6 {
            reveal_strlit("repolex-ai/git-lex");
            reveal_strlit("burntsushi/memchr");
            assert(lower_keys()[i].len() != lower_keys()[j].len());
        } else if j == 7 {
            reveal_strlit("repolex-ai/git-lex");
            reveal_strlit("burntsushi/walkdir");
            assert(lower_keys()[i][0] != lower_keys()[j][0]);
        } else if j == 8 {
            reveal_strlit("repolex-ai/git-lex");
            reveal_strlit("tokio-rs/axum");
            assert(lower_keys()[i].len() != lower_keys()[j].len());
        } else if j == 9 {
            reveal_strlit("repolex-ai/git-lex");
            reveal_strlit("tokio-rs/bytes");
            assert(lower_keys()[i].len() != lower_keys()[j].len());
        } else if j == 10 {
            reveal_strlit("repolex-ai/git-lex");
            reveal_strlit("dtolnay/syn");
            assert(lower_keys()[i].len() != lower_keys()[j].len());
        } else if j == 11 {
            reveal_strlit("repolex-ai/git-lex");
            reveal_strlit("dtolnay/quote");
            assert(lower_keys()[i].len() != lower_keys()[j].len());
        } else if j == 12 {
            reveal_strlit("repolex-ai/git-lex");
            reveal_strlit("dtolnay/proc-macro2");
            assert(lower_keys()[i].len() != lower_keys()[j].len());
        } else if j == 13 {
            reveal_strlit("repolex-ai/git-lex");
            reveal_strlit("dtolnay/anyhow");
            assert(lower_keys()[i].len() != lower_keys()[j].len());
        } else if j == 14 {
            reveal_strlit("repolex-ai/git-lex");
            reveal_strlit("serde-rs/serde");
            assert(lower_keys()[i].len() != lower_keys()[j].len());
        } else if j == 15 {
            reveal_strlit("repolex-ai/git-lex");
            reveal_strlit("serde-rs/json");
            assert(lower_keys()[i].len() != lower_keys()[j].len());
        } else if j == 16 {
            reveal_strlit("repolex-ai/git-lex");
            reveal_strlit("rust-lang/socket2");
            assert(lower_keys()[i].len() != lower_keys()[j].len());
        } else if j == 17 {
            reveal_strlit("repolex-ai/git-lex");
            reveal_strlit("rust-lang/libc");
            assert(lower_keys()[i].len() != lower_keys()[j].len());
        } else if j == 18 {
            reveal_strlit("repolex-ai/git-lex");
            reveal_strlit("rust-lang/git2-rs");
            assert(lower_keys()[i].len() != lower_keys()[j].len());
        } else if j == 19 {
            reveal_strlit("repolex-ai/git-lex");
            reveal_strlit("rust-lang/git2-rs");
            assert(lower_keys()[i].len() != lower_keys()[j].len());
        } else if j == 20 {
            reveal_strlit("repolex-ai/git-lex");
            reveal_strlit("rust-lang/flate2-rs");
            assert(lower_keys()[i].len() != lower_keys()[j].len());
        } else if j == 21 {
            reveal_strlit("repolex-ai/git-lex");
            reveal_strlit("rust-lang/flate2-rs");
            assert(lower_keys()[i].len() != lower_keys()[j].len());
        } else if j == 22 {
            reveal_strlit("repolex-ai/git-lex");
            reveal_strlit("frommi/miniz_oxide");
            assert(lower_keys()[i][0] != lower_keys()[j][0]);
        } else if j == 23 {
            reveal_strlit("repolex-ai/git-lex");
            reveal_strlit("srijs/rust-crc32fast");
            assert(lower_keys()[i].len() != lower_keys()[j].len());
        } else if j == 24 {
            reveal_strlit("repolex-ai/git-lex");
            reveal_strlit("hyperium/http");
            assert(lower_keys()[i].len() != lower_keys()[j].len());
        } else if j == 25 {
            reveal_strlit("repolex-ai/git-lex");
            reveal_strlit("hyperium/hyper");
            assert(lower_keys()[i].len() != lower_keys()[j].len());
        } else if j == 26 {
            reveal_strlit("repolex-ai/git-lex");
            reveal_strlit("seanmonstar/reqwest");
            assert(lower_keys()[i].len() != lower_keys()[j].len());
        } else if j == 27 {
            reveal_strlit("repolex-ai/git-lex");
            reveal_strlit("ruby/ruby");
            assert(lower_keys()[i].len() != lower_keys()[j].len());
        } else if j == 28 {
            reveal_strlit("repolex-ai/git-lex");
            reveal_strlit("jquery/jquery");
            assert(lower_keys()[i].len() != lower_keys()[j].len());
        }
    }
}

proof fn lemma_keys_agree_2()
    ensures
        forall|j: int|
            2 < j < lower_keys().len() && #[trigger] lower_keys()[j] == lower_keys()[2] ==> row_coords(
                backbone()[j],
            ) == row_coords(backbone()[2]),
{
    assert forall|j: int| 2 < j < lower_keys().len() && #[trigger] lower_keys()[j] == lower_keys()[2] implies row_coords(
        backbone()[j],
    ) == row_coords(backbone()[2]) by {
        let i = 2int;
        if j == 3 {
            reveal_strlit("actix/actix-web");
            reveal_strlit("actix/actix-web");
            assert(row_coords(backbone()[i]) == row_coords(backbone()[j]));
        } else if j == 4 {
            reveal_strlit("actix/actix-web");
            reveal_strlit("rust-lang/regex");
            assert(lower_keys()[i][0] != lower_keys()[j][0]);
        } else if j == 5 {
            reveal_strlit("actix/actix-web");
            reveal_strlit("burntsushi/aho-corasick");
            assert(lower_keys()[i].len() != lower_keys()[j].len());
        } else if j == 6 {
            reveal_strlit("actix/actix-web");
            reveal_strlit("burntsushi/memchr");
            assert(lower_keys()[i].len() != lower_keys()[j].len());
        } else if j == 7 {
            reveal_strlit("actix/actix-web");
            reveal_strlit("burntsushi/walkdir");
            assert(lower_keys()[i].len() != lower_keys()[j].len());
        } else if j == 8 {
            reveal_strlit("actix/actix-web");
            reveal_strlit("tokio-rs/axum");
            assert(lower_keys()[i].len() != lower_keys()[j].len());
        } else if j == 9 {
            reveal_strlit("actix/actix-web");
            reveal_strlit("tokio-rs/bytes");
            assert(lower_keys()[i].len() != lower_keys()[j].len());
        } else if j == 10 {
            reveal_strlit("actix/actix-web");
            reveal_strlit("dtolnay/syn");
            assert(lower_keys()[i].len() != lower_keys()[j].len());
        } else if j == 11 {
            reveal_strlit("actix/actix-web");
            reveal_strlit("dtolnay/quote");
            assert(lower_keys()[i].len() != lower_keys()[j].len());
        } else if j == 12 {
            reveal_strlit("actix/actix-web");
            reveal_strlit("dtolnay/proc-macro2");
            assert(lower_keys()[i].len() != lower_keys()[j].len());
        } else if j == 13 {
            reveal_strlit("actix/actix-web");
            reveal_strlit("dtolnay/anyhow");
            assert(lower_keys()[i].len() != lower_keys()[j].len());
        } else if j == 14 {
            reveal_strlit("actix/actix-web");
            reveal_strlit("serde-rs/serde");
            assert(lower_keys()[i].len() != lower_keys()[j].len());
        } else if j == 15 {
            reveal_strlit("actix/actix-web");
            reveal_strlit("serde-rs/json");
            assert(lower_keys()[i].len() != lower_keys()[j].len());
        } else if j == 16 {
            reveal_strlit("actix/actix-web");
            reveal_strlit("rust-lang/socket2");
            assert(lower_keys()[i].len() != lower_keys()[j].len());
        } else if j == 17 {
            reveal_strlit("actix/actix-web");
            reveal_strlit("rust-lang/libc");
            assert(lower_keys()[i].len() != lower_keys()[j].len());
        } else if j == 18 {
            reveal_strlit("actix/actix-web");
            reveal_strlit("rust-lang/git2-rs");
            assert(lower_keys()[i].len() != lower_keys()[j].len());
        } else if j == 19 {
            reveal_strlit("actix/actix-web");
            reveal_strlit("rust-lang/git2-rs");
            assert(lower_keys()[i].len() != lower_keys()[j].len());
        } else if j == 20 {
            reveal_strlit("actix/actix-web");
            reveal_strlit("rust-lang/flate2-rs");
            assert(lower_keys()[i].len() != lower_keys()[j].len());
        } else if j == 21 {
            reveal_strlit("actix/actix-web");
            reveal_strlit("rust-lang/flate2-rs");
            assert(lower_keys()[i].len() != lower_keys()[j].len());
        } else if j == 22 {
            reveal_strlit("actix/actix-web");
            reveal_strlit("frommi/miniz_oxide");
            assert(lower_keys()[i].len() != lower_keys()[j].len());
        } else if j == 23 {
            reveal_strlit("actix/actix-web");
            reveal_strlit("srijs/rust-crc32fast");
            assert(lower_keys()[i].len() != lower_keys()[j].len());
        } else if j == 24 {
            reveal_strlit("actix/actix-web");
            reveal_strlit("hyperium/http");
            assert(lower_keys()[i].len() != lower_keys()[j].len());
        } else if j == 25 {
            reveal_strlit("actix/actix-web");
            reveal_strlit("hyperium/hyper");
            assert(lower_keys()[i].len() != lower_keys()[j].len());
        } else if j == 26 {
            reveal_strlit("actix/actix-web");
            reveal_strlit("seanmonstar/reqwest");
            assert(lower_keys()[i].len() != lower_keys()[j].len());
        } else if j == 27 {
            reveal_strlit("actix/actix-web");
            reveal_strlit("ruby/ruby");
            assert(lower_keys()[i].len() != lower_keys()[j].len());
        } else if j == 28 {
            reveal_strlit("actix/actix-web");
            reveal_strlit("jquery/jquery");
            assert(lower_keys()[i].len() != lower_keys()[j].len());
        }
    }
}

proof fn lemma_keys_agree_3()
    ensures
        forall|j: int|
            3 < j < lower_keys().len() && #[trigger] lower_keys()[j] == lower_keys()[3] ==> row_coords(
                backbone()[j],
            ) == row_coords(backbone()[3]),
{
    assert forall|j: int| 3 < j < lower_keys().len() && #[trigger] lower_keys()[j] == lower_keys()[3] implies row_coords(
        backbone()[j],
    ) == row_coords(backbone()[3]) by {
        let i = 3int;
        if j == 4 {
            reveal_strlit("actix/actix-web");
            reveal_strlit("rust-lang/regex");
            assert(lower_keys()[i][0] != lower_keys()[j][0]);
        } else if j == 5 {
            reveal_strlit("actix/actix-web");
            reveal_strlit("burntsushi/aho-corasick");
            assert(lower_keys()[i].len() != lower_keys()[j].len());
        } else if j == 6 {
            reveal_strlit("actix/actix-web");
            reveal_strlit("burntsushi/memchr");
            assert(lower_keys()[i].len() != lower_keys()[j].len());
        } else if j == 7 {
            reveal_strlit("actix/actix-web");
            reveal_strlit("burntsushi/walkdir");
            assert(lower_keys()[i].len() != lower_keys()[j].len());
        } else if j == 8 {
            reveal_strlit("actix/actix-web");
            reveal_strlit("tokio-rs/axum");
            assert(lower_keys()[i].len() != lower_keys()[j].len());
        } else if j == 9 {
            reveal_strlit("actix/actix-web");
            reveal_strlit("tokio-rs/bytes");
            assert(lower_keys()[i].len() != lower_keys()[j].len());
        } else if j == 10 {
            reveal_strlit("actix/actix-web");
            reveal_strlit("dtolnay/syn");
            assert(lower_keys()[i].len() != lower_keys()[j].len());
        } else if j == 11 {
            reveal_strlit("actix/actix-web");
            reveal_strlit("dtolnay/quote");
            assert(lower_keys()[i].len() != lower_keys()[j].len());
        } else if j == 12 {
            reveal_strlit("actix/actix-web");
            reveal_strlit("dtolnay/proc-macro2");
            assert(lower_keys()[i].len() != lower_keys()[j].len());
        } else if j == 13 {
            reveal_strlit("actix/actix-web");
            reveal_strlit("dtolnay/anyhow");
            assert(lower_keys()[i].len() != lower_keys()[j].len());
        } else if j == 14 {
            reveal_strlit("actix/actix-web");
            reveal_strlit("serde-rs/serde");
            assert(lower_keys()[i].len() != lower_keys()[j].len());
        } else if j == 15 {
            reveal_strlit("actix/actix-web");
            reveal_strlit("serde-rs/json");
            assert(lower_keys()[i].len() != lower_keys()[j].len());
        } else if j == 16 {
            reveal_strlit("actix/actix-web");
            reveal_strlit("rust-lang/socket2");
            assert(lower_keys()[i].len() != lower_keys()[j].len());
        } else if j == 17 {
            reveal_strlit("actix/actix-web");
            reveal_strlit("rust-lang/libc");
            assert(lower_keys()[i].len() != lower_keys()[j].len());
        } else if j == 18 {
            reveal_strlit("actix/actix-web");
            reveal_strlit("rust-lang/git2-rs");
            assert(lower_keys()[i].len() != lower_keys()[j].len());
        } else if j == 19 {
            reveal_strlit("actix/actix-web");
            reveal_strlit("rust-lang/git2-rs");
            assert(lower_keys()[i].len() != lower_keys()[j].len());
        } else if j == 20 {
            reveal_strlit("actix/actix-web");
            reveal_strlit("rust-lang/flate2-rs");
            assert(lower_keys()[i].len() != lower_keys()[j].len());
        } else if j == 21 {
            reveal_strlit("actix/actix-web");
            reveal_strlit("rust-lang/flate2-rs");
            assert(lower_keys()[i].len() != lower_keys()[j].len());
        } else if j == 22 {
            reveal_strlit("actix/actix-web");
            reveal_strlit("frommi/miniz_oxide");
            assert(lower_keys()[i].len() != lower_keys()[j].len());
        } else if j == 23 {
            reveal_strlit("actix/actix-web");
            reveal_strlit("srijs/rust-crc32fast");
            assert(lower_keys()[i].len() != lower_keys()[j].len());
        } else if j == 24 {
            reveal_strlit("actix/actix-web");
            reveal_strlit("hyperium/http");
            assert(lower_keys()[i].len() != lower_keys()[j].len());
        } else if j == 25 {
            reveal_strlit("actix/actix-web");
            reveal_strlit("hyperium/hyper");
            assert(lower_keys()[i].len() != lower_keys()[j].len());
        } else if j == 26 {
            reveal_strlit("actix/actix-web");
            reveal_strlit("seanmonstar/reqwest");
            assert(lower_keys()[i].len() != lower_keys()[j].len());
        } else if j == 27 {
            reveal_strlit("actix/actix-web");
            reveal_strlit("ruby/ruby");
            assert(lower_keys()[i].len() != lower_keys()[j].len());
        } else if j == 28 {
            reveal_strlit("actix/actix-web");
            reveal_strlit("jquery/jquery");
            assert(lower_keys()[i].len() != lower_keys()[j].len());
        }
    }
}

proof fn lemma_keys_agree_4()
    ensures
        forall|j: int|
            4 < j < lower_keys().len() && #[trigger] lower_keys()[j] == lower_keys()[4] ==> row_coords(
                backbone()[j],
            ) == row_coords(backbone()[4]),
{
    assert forall|j: int| 4 < j < lower_keys().len() && #[trigger] lower_keys()[j] == lower_keys()[4] implies row_coords(
        backbone()[j],
    ) == row_coords(backbone()[4]) by {
        let i = 4int;
        if j == 5 {
            reveal_strlit("rust-lang/regex");
            reveal_strlit("burntsushi/aho-corasick");
            assert(lower_keys()[i].len() != lower_keys()[j].len());
        } else if j == 6 {
            reveal_strlit("rust-lang/regex");
            reveal_strlit("burntsushi/memchr");
            assert(lower_keys()[i].len() != lower_keys()[j].len());
        } else if j == 7 {
            reveal_strlit("rust-lang/regex");
            reveal_strlit("burntsushi/walkdir");
            assert(lower_keys()[i].len() != lower_keys()[j].len());
        } else if j == 8 {
            reveal_strlit("rust-lang/regex");
            reveal_strlit("tokio-rs/axum");
            assert(lower_keys()[i].len() != lower_keys()[j].len());
        } else if j == 9 {
            reveal_strlit("rust-lang/regex");
            reveal_strlit("tokio-rs/bytes");
            assert(lower_keys()[i].len() != lower_keys()[j].len());
        } else if j == 10 {
            reveal_strlit("rust-lang/regex");
            reveal_strlit("dtolnay/syn");
            assert(lower_keys()[i].len() != lower_keys()[j].len());
        } else if j == 11 {
            reveal_strlit("rust-lang/regex");
            reveal_strlit("dtolnay/quote");
            assert(lower_keys()[i].len() != lower_keys()[j].len());
        } else if j == 12 {
            reveal_strlit("rust-lang/regex");
            reveal_strlit("dtolnay/proc-macro2");
            assert(lower_keys()[i].len() != lower_keys()[j].len());
        } else if j == 13 {
            reveal_strlit("rust-lang/regex");
            reveal_strlit("dtolnay/anyhow");
            assert(lower_keys()[i].len() != lower_keys()[j].len());
        } else if j == 14 {
            reveal_strlit("rust-lang/regex");
            reveal_strlit("serde-rs/serde");
            assert(lower_keys()[i].len() != lower_keys()[j].len());
        } else if j == 15 {
            reveal_strlit("rust-lang/regex");
            reveal_strlit("serde-rs/json");
            assert(lower_keys()[i].len() != lower_keys()[j].len());
        } else if j == 16 {
            reveal_strlit("rust-lang/regex");
            reveal_strlit("rust-lang/socket2");
            assert(lower_keys()[i].len() != lower_keys()[j].len());
        } else if j == 17 {
            reveal_strlit("rust-lang/regex");
            reveal_strlit("rust-lang/libc");
            assert(lower_keys()[i].len() != lower_keys()[j].len());
        } else if j == 18 {
            reveal_strlit("rust-lang/regex");
            reveal_strlit("rust-lang/git2-rs");
            assert(lower_keys()[i].len() != lower_keys()[j].len());
        } else if j == 19 {
            reveal_strlit("rust-lang/regex");
            reveal_strlit("rust-lang/git2-rs");
            assert(lower_keys()[i].len() != lower_keys()[j].len());
        } else if j == 20 {
            reveal_strlit("rust-lang/regex");
            reveal_strlit("rust-lang/flate2-rs");
            assert(lower_keys()[i].len() != lower_keys()[j].len());
        } else if j == 21 {
            reveal_strlit("rust-lang/regex");
            reveal_strlit("rust-lang/flate2-rs");
            assert(lower_keys()[i].len() != lower_keys()[j].len());
        } else if j == 22 {
            reveal_strlit("rust-lang/regex");
            reveal_strlit("frommi/miniz_oxide");
            assert(lower_keys()[i].len() != lower_keys()[j].len());
        } else if j == 23 {
            reveal_strlit("rust-lang/regex");
            reveal_strlit("srijs/rust-crc32fast");
            assert(lower_keys()[i].len() != lower_keys()[j].len());
        } else if j == 24 {
            reveal_strlit("rust-lang/regex");
            reveal_strlit("hyperium/http");
            assert(lower_keys()[i].len() != lower_keys()[j].len());
        } else if j == 25 {
            reveal_strlit("rust-lang/regex");
            reveal_strlit("hyperium/hyper");
            assert(lower_keys()[i].len() != lower_keys()[j].len());
        } else if j == 26 {
            reveal_strlit("rust-lang/regex");
            reveal_strlit("seanmonstar/reqwest");
            assert(lower_keys()[i].len() != lower_keys()[j].len());
        } else if j == 27 {
            reveal_strlit("rust-lang/regex");
            reveal_strlit("ruby/ruby");
            assert(lower_keys()[i].len() != lower_keys()[j].len());
        } else if j == 28 {
            reveal_strlit("rust-lang/regex");
            reveal_strlit("jquery/jquery");
            assert(lower_keys()[i].len() != lower_keys()[j].len());
        }
    }
}

proof fn lemma_keys_agree_5()
    ensures
        forall|j: int|
            5 < j < lower_keys().len() && #[trigger] lower_keys()[j] == lower_keys()[5] ==> row_coords(
                backbone()[j],
            ) == row_coords(backbone()[5]),
{
    assert forall|j: int| 5 < j < lower_keys().len() && #[trigger] lower_keys()[j] == lower_keys()[5] implies row_coords(
        backbone()[j],
    ) == row_coords(backbone()[5]) by {
        let i = 5int;
        if j == 6 {
            reveal_strlit("burntsushi/aho-corasick");
            reveal_strlit("burntsushi/memchr");
            assert(lower_keys()[i].len() != lower_keys()[j].len());
        } else if j == 7 {
            reveal_strlit("burntsushi/aho-corasick");
            reveal_strlit("burntsushi/walkdir");
            assert(lower_keys()[i].len() != lower_keys()[j].len());
        } else if j == 8 {
            reveal_strlit("burntsushi/aho-corasick");
            reveal_strlit("tokio-rs/axum");
            assert(lower_keys()[i].len() != lower_keys()[j].len());
        } else if j == 9 {
            reveal_strlit("burntsushi/aho-corasick");
            reveal_strlit("tokio-rs/bytes");
            assert(lower_keys()[i].len() != lower_keys()[j].len());
        } else if j == 10 {
            reveal_strlit("burntsushi/aho-corasick");
            reveal_strlit("dtolnay/syn");
            assert(lower_keys()[i].len() != lower_keys()[j].len());
        } else if j == 11 {
            reveal_strlit("burntsushi/aho-corasick");
            reveal_strlit("dtolnay/quote");
            assert(lower_keys()[i].len() != lower_keys()[j].len());
        } else if j == 12 {
            reveal_strlit("burntsushi/aho-corasick");
            reveal_strlit("dtolnay/proc-macro2");
            assert(lower_keys()[i].len() != lower_keys()[j].len());
        } else if j == 13 {
            reveal_strlit("burntsushi/aho-corasick");
            reveal_strlit("dtolnay/anyhow");
            assert(lower_keys()[i].len() != lower_keys()[j].len());
        } else if j == 14 {
            reveal_strlit("burntsushi/aho-corasick");
            reveal_strlit("serde-rs/serde");
            assert(lower_keys()[i].len() != lower_keys()[j].len());
        } else if j == 15 {
            reveal_strlit("burntsushi/aho-corasick");
            reveal_strlit("serde-rs/json");
            assert(lower_keys()[i].len() != lower_keys()[j].len());
        } else if j == 16 {
            reveal_strlit("burntsushi/aho-corasick");
            reveal_strlit("rust-lang/socket2");
            assert(lower_keys()[i].len() != lower_keys()[j].len());
        } else if j == 17 {
            reveal_strlit("burntsushi/aho-corasick");
            reveal_strlit("rust-lang/libc");
            assert(lower_keys()[i].len() != lower_keys()[j].len());
        } else if j == 18 {
            reveal_strlit("burntsushi/aho-corasick");
            reveal_strlit("rust-lang/git2-rs");
            assert(lower_keys()[i].len() != lower_keys()[j].len());
        } else if j == 19 {
            reveal_strlit("burntsushi/aho-corasick");
            reveal_strlit("rust-lang/git2-rs");
            assert(lower_keys()[i].len() != lower_keys()[j].len());
        } else if j == 20 {
            reveal_strlit("burntsushi/aho-corasick");
            reveal_strlit("rust-lang/flate2-rs");
            assert(lower_keys()[i].len() != lower_keys()[j].len());
        } else if j == 21 {
            reveal_strlit("burntsushi/aho-corasick");
            reveal_strlit("rust-lang/flate2-rs");
            assert(lower_keys()[i].len() != lower_keys()[j].len());
        } else if j == 22 {
            reveal_strlit("burntsushi/aho-corasick");
            reveal_strlit("frommi/miniz_oxide");
            assert(lower_keys()[i].len() != lower_keys()[j].len());
        } else if j == 23 {
            reveal_strlit("burntsushi/aho-corasick");
            reveal_strlit("srijs/rust-crc32fast");
            assert(lower_keys()[i].len() != lower_keys()[j].len());
        } else if j == 24 {
            reveal_strlit("burntsushi/aho-corasick");
            reveal_strlit("hyperium/http");
            assert(lower_keys()[i].len() != lower_keys()[j].len());
        } else if j == 25 {
            reveal_strlit("burntsushi/aho-corasick");
            reveal_strlit("hyperium/hyper");
            assert(lower_keys()[i].len() != lower_keys()[j].len());
        } else if j == 26 {
            reveal_strlit("burntsushi/aho-corasick");
            reveal_strlit("seanmonstar/reqwest");
            assert(lower_keys()[i].len() != lower_keys()[j].len());
        } else if j == 27 {
            reveal_strlit("burntsushi/aho-corasick");
            reveal_strlit("ruby/ruby");
            assert(lower_keys()[i].len() != lower_keys()[j].len());
        } else if j == 28 {
            reveal_strlit("burntsushi/aho-corasick");
            reveal_strlit("jquery/jquery");
            assert(lower_keys()[i].len() != lower_keys()[j].len());
        }
    }
}

proof fn lemma_keys_agree_6()
    ensures
        forall|j: int|
            6 < j < lower_keys().len() && #[trigger] lower_keys()[j] == lower_keys()[6] ==> row_coords(
                backbone()[j],
            ) == row_coords(backbone()[6]),
{
    assert forall|j: int| 6 < j < lower_keys().len() && #[trigger] lower_keys()[j] == lower_keys()[6] implies row_coords(
        backbone()[j],
    ) == row_coords(backbone()[6]) by {
        let i = 6int;
        if j == 7 {
            reveal_strlit("burntsushi/memchr");
            reveal_strlit("burntsushi/walkdir");
            assert(lower_keys()[i].len() != lower_keys()[j].len());
        } else if j == 8 {
            reveal_strlit("burntsushi/memchr");
            reveal_strlit("tokio-rs/axum");
            assert(lower_keys()[i].len() != lower_keys()[j].len());
        } else if j == 9 {
            reveal_strlit("burntsushi/memchr");
            reveal_strlit("tokio-rs/bytes");
            assert(lower_keys()[i].len() != lower_keys()[j].len());
        } else if j == 10 {
            reveal_strlit("burntsushi/memchr");
            reveal_strlit("dtolnay/syn");
            assert(lower_keys()[i].len() != lower_keys()[j].len());
        } else if j == 11 {
            reveal_strlit("burntsushi/memchr");
            reveal_strlit("dtolnay/quote");
            assert(lower_keys()[i].len() != lower_keys()[j].len());
        } else if j == 12 {
            reveal_strlit("burntsushi/memchr");
            reveal_strlit("dtolnay/proc-macro2");
            assert(lower_keys()[i].len() != lower_keys()[j].len());
        } else if j == 13 {
            reveal_strlit("burntsushi/memchr");
            reveal_strlit("dtolnay/anyhow");
            assert(lower_keys()[i].len() != lower_keys()[j].len());
        } else if j == 14 {
            reveal_strlit("burntsushi/memchr");
            reveal_strlit("serde-rs/serde");
            assert(lower_keys()[i].len() != lower_keys()[j].len());
        } else if j == 15 {
            reveal_strlit("burntsushi/memchr");
            reveal_strlit("serde-rs/json");
            assert(lower_keys()[i].len() != lower_keys()[j].len());
        } else if j == 16 {
            reveal_strlit("burntsushi/memchr");
            reveal_strlit("rust-lang/socket2");
            assert(lower_keys()[i][0] != lower_keys()[j][0]);
        } else if j == 17 {
            reveal_strlit("burntsushi/memchr");
            reveal_strlit("rust-lang/libc");
            assert(lower_keys()[i].len() != lower_keys()[j].len());
        } else if j == 18 {
            reveal_strlit("burntsushi/memchr");
            reveal_strlit("rust-lang/git2-rs");
            assert(lower_keys()[i][0] != lower_keys()[j][0]);
        } else if j == 19 {
            reveal_strlit("burntsushi/memchr");
            reveal_strlit("rust-lang/git2-rs");
            assert(lower_keys()[i][0] != lower_keys()[j][0]);
        } else if j == 20 {
            reveal_strlit("burntsushi/memchr");
            reveal_strlit("rust-lang/flate2-rs");
            assert(lower_keys()[i].len() != lower_keys()[j].len());
        } else if j == 21 {
            reveal_strlit("burntsushi/memchr");
            reveal_strlit("rust-lang/flate2-rs");
            assert(lower_keys()[i].len() != lower_keys()[j].len());
        } else if j == 22 {
            reveal_strlit("burntsushi/memchr");
            reveal_strlit("frommi/miniz_oxide");
            assert(lower_keys()[i].len() != lower_keys()[j].len());
        } else if j == 23 {
            reveal_strlit("burntsushi/memchr");
            reveal_strlit("srijs/rust-crc32fast");
            assert(lower_keys()[i].len() != lower_keys()[j].len());
        } else if j == 24 {
            reveal_strlit("burntsushi/memchr");
            reveal_strlit("hyperium/http");
            assert(lower_keys()[i].len() != lower_keys()[j].len());
        } else if j == 25 {
            reveal_strlit("burntsushi/memchr");
            reveal_strlit("hyperium/hyper");
            assert(lower_keys()[i].len() != lower_keys()[j].len());
        } else if j == 26 {
            reveal_strlit("burntsushi/memchr");
            reveal_strlit("seanmonstar/reqwest");
            assert(lower_keys()[i].len() != lower_keys()[j].len());
        } else if j == 27 {
            reveal_strlit("burntsushi/memchr");
            reveal_strlit("ruby/ruby");
            assert(lower_keys()[i].len() != lower_keys()[j].len());
        } else if j == 28 {
            reveal_strlit("burntsushi/memchr");
            reveal_strlit("jquery/jquery");
            assert(lower_keys()[i].len() != lower_keys()[j].len());
        }
    }
}

proof fn lemma_keys_agree_7()
    ensures
        forall|j: int|
            7 < j < lower_keys().len() && #[trigger] lower_keys()[j] == lower_keys()[7] ==> row_coords(
                backbone()[j],
            ) == row_coords(backbone()[7]),
{
    assert forall|j: int| 7 < j < lower_keys().len() && #[trigger] lower_keys()[j] == lower_keys()[7] implies row_coords(
        backbone()[j],
    ) == row_coords(backbone()[7]) by {
        let i = 7int;
        if j == 8 {
            reveal_strlit("burntsushi/walkdir");
            reveal_strlit("tokio-rs/axum");
            assert(lower_keys()[i].len() != lower_keys()[j].len());
        } else if j == 9 {
            reveal_strlit("burntsushi/walkdir");
            reveal_strlit("tokio-rs/bytes");
            assert(lower_keys()[i].len() != lower_keys()[j].len());
        } else if j == 10 {
            reveal_strlit("burntsushi/walkdir");
            reveal_strlit("dtolnay/syn");
            assert(lower_keys()[i].len() != lower_keys()[j].len());
        } else if j == 11 {
            reveal_strlit("burntsushi/walkdir");
            reveal_strlit("dtolnay/quote");
            assert(lower_keys()[i].len() != lower_keys()[j].len());
        } else if j == 12 {
            reveal_strlit("burntsushi/walkdir");
            reveal_strlit("dtolnay/proc-macro2");
            assert(lower_keys()[i].len() != lower_keys()[j].len());
        } else if j == 13 {
            reveal_strlit("burntsushi/walkdir");
            reveal_strlit("dtolnay/anyhow");
            assert(lower_keys()[i].len() != lower_keys()[j].len());
        } else if j == 14 {
            reveal_strlit("burntsushi/walkdir");
            reveal_strlit("serde-rs/serde");
            assert(lower_keys()[i].len() != lower_keys()[j].len());
        } else if j == 15 {
            reveal_strlit("burntsushi/walkdir");
            reveal_strlit("serde-rs/json");
            assert(lower_keys()[i].len() != lower_keys()[j].len());
        } else if j == 16 {
            reveal_strlit("burntsushi/walkdir");
            reveal_strlit("rust-lang/socket2");
            assert(lower_keys()[i].len() != lower_keys()[j].len());
        } else if j == 17 {
            reveal_strlit("burntsushi/walkdir");
            reveal_strlit("rust-lang/libc");
            assert(lower_keys()[i].len() != lower_keys()[j].len());
        } else if j == 18 {
            reveal_strlit("burntsushi/walkdir");
            reveal_strlit("rust-lang/git2-rs");
            assert(lower_keys()[i].len() != lower_keys()[j].len());
        } else if j == 19 {
            reveal_strlit("burntsushi/walkdir");
            reveal_strlit("rust-lang/git2-rs");
            assert(lower_keys()[i].len() != lower_keys()[j].len());
        } else if j == 20 {
            reveal_strlit("burntsushi/walkdir");
            reveal_strlit("rust-lang/flate2-rs");
            assert(lower_keys()[i].len() != lower_keys()[j].len());
        } else if j == 21 {
            reveal_strlit("burntsushi/walkdir");
            reveal_strlit("rust-lang/flate2-rs");
            assert(lower_keys()[i].len() != lower_keys()[j].len());
        } else if j == 22 {
            reveal_strlit("burntsushi/walkdir");
            reveal_strlit("frommi/miniz_oxide");
            assert(lower_keys()[i][0] != lower_keys()[j][0]);
        } else if j == 23 {
            reveal_strlit("burntsushi/walkdir");
            reveal_strlit("srijs/rust-crc32fast");
            assert(lower_keys()[i].len() != lower_keys()[j].len());
        } else if j == 24 {
            reveal_strlit("burntsushi/walkdir");
            reveal_strlit("hyperium/http");
            assert(lower_keys()[i].len() != lower_keys()[j].len());
        } else if j == 25 {
            reveal_strlit("burntsushi/walkdir");
            reveal_strlit("hyperium/hyper");
            assert(lower_keys()[i].len() != lower_keys()[j].len());
        } else if j == 26 {
            reveal_strlit("burntsushi/walkdir");
            reveal_strlit("seanmonstar/reqwest");
            assert(lower_keys()[i].len() != lower_keys()[j].len());
        } else if j == 27 {
            reveal_strlit("burntsushi/walkdir");
            reveal_strlit("ruby/ruby");
            assert(lower_keys()[i].len() != lower_keys()[j].len());
        } else if j == 28 {
            reveal_strlit("burntsushi/walkdir");
            reveal_strlit("jquery/jquery");
            assert(lower_keys()[i].len() != lower_keys()[j].len());
        }
    }
}

proof fn lemma_keys_agree_8()
    ensures
        forall|j: int|
            8 < j < lower_keys().len() && #[trigger] lower_keys()[j] == lower_keys()[8] ==> row_coords(
                backbone()[j],
            ) == row_coords(backbone()[8]),
{
    assert forall|j: int| 8 < j < lower_keys().len() && #[trigger] lower_keys()[j] == lower_keys()[8] implies row_coords(
        backbone()[j],
    ) == row_coords(backbone()[8]) by {
        let i = 8int;
        if j == 9 {
            reveal_strlit("tokio-rs/axum");
            reveal_strlit("tokio-rs/bytes");
            assert(lower_keys()[i].len() != lower_keys()[j].len());
        } else if j == 10 {
            reveal_strlit("tokio-rs/axum");
            reveal_strlit("dtolnay/syn");
            assert(lower_keys()[i].len() != lower_keys()[j].len());
        } else if j == 11 {
            reveal_strlit("tokio-rs/axum");
            reveal_strlit("dtolnay/quote");
            assert(lower_keys()[i][0] != lower_keys()[j][0]);
        } else if j == 12 {
            reveal_strlit("tokio-rs/axum");
            reveal_strlit("dtolnay/proc-macro2");
            assert(lower_keys()[i].len() != lower_keys()[j].len());
        } else if j == 13 {
            reveal_strlit("tokio-rs/axum");
            reveal_strlit("dtolnay/anyhow");
            assert(lower_keys()[i].len() != lower_keys()[j].len());
        } else if j == 14 {
            reveal_strlit("tokio-rs/axum");
            reveal_strlit("serde-rs/serde");
            assert(lower_keys()[i].len() != lower_keys()[j].len());
        } else if j == 15 {
            reveal_strlit("tokio-rs/axum");
            reveal_strlit("serde-rs/json");
            assert(lower_keys()[i][0] != lower_keys()[j][0]);
        } else if j == 16 {
            reveal_strlit("tokio-rs/axum");
            reveal_strlit("rust-lang/socket2");
            assert(lower_keys()[i].len() != lower_keys()[j].len());
        } else if j == 17 {
            reveal_strlit("tokio-rs/axum");
            reveal_strlit("rust-lang/libc");
            assert(lower_keys()[i].len() != lower_keys()[j].len());
        } else if j == 18 {
            reveal_strlit("tokio-rs/axum");
            reveal_strlit("rust-lang/git2-rs");
            assert(lower_keys()[i].len() != lower_keys()[j].len());
        } else if j == 19 {
            reveal_strlit("tokio-rs/axum");
            reveal_strlit("rust-lang/git2-rs");
            assert(lower_keys()[i].len() != lower_keys()[j].len());
        } else if j == 20 {
            reveal_strlit("tokio-rs/axum");
            reveal_strlit("rust-lang/flate2-rs");
            assert(lower_keys()[i].len() != lower_keys()[j].len());
        } else if j == 21 {
            reveal_strlit("tokio-rs/axum");
            reveal_strlit("rust-lang/flate2-rs");
            assert(lower_keys()[i].len() != lower_keys()[j].len());
        } else if j == 22 {
            reveal_strlit("tokio-rs/axum");
            reveal_strlit("frommi/miniz_oxide");
            assert(lower_keys()[i].len() != lower_keys()[j].len());
        } else if j == 23 {
            reveal_strlit("tokio-rs/axum");
            reveal_strlit("srijs/rust-crc32fast");
            assert(lower_keys()[i].len() != lower_keys()[j].len());
        } else if j == 24 {
            reveal_strlit("tokio-rs/axum");
            reveal_strlit("hyperium/http");
            assert(lower_keys()[i][0] != lower_keys()[j][0]);
        } else if j == 25 {
            reveal_strlit("tokio-rs/axum");
            reveal_strlit("hyperium/hyper");
            assert(lower_keys()[i].len() != lower_keys()[j].len());
        } else if j == 26 {
            reveal_strlit("tokio-rs/axum");
            reveal_strlit("seanmonstar/reqwest");
            assert(lower_keys()[i].len() != lower_keys()[j].len());
        } else if j == 27 {
            reveal_strlit("tokio-rs/axum");
            reveal_strlit("ruby/ruby");
            assert(lower_keys()[i].len() != lower_keys()[j].len());
        } else if j == 28 {
            reveal_strlit("tokio-rs/axum");
            reveal_strlit("jquery/jquery");
            assert(lower_keys()[i][0] != lower_keys()[j][0]);
        }
    }
}

proof fn lemma_keys_agree_9()
    ensures
        forall|j: int|
            9 < j < lower_keys().len() && #[trigger] lower_keys()[j] == lower_keys()[9] ==> row_coords(
                backbone()[j],
            ) == row_coords(backbone()[9]),
{
    assert forall|j: int| 9 < j < lower_keys().len() && #[trigger] lower_keys()[j] == lower_keys()[9] implies row_coords(
        backbone()[j],
    ) == row_coords(backbone()[9]) by {
        let i = 9int;
        if j == 10 {
            reveal_strlit("tokio-rs/bytes");
            reveal_strlit("dtolnay/syn");
            assert(lower_keys()[i].len() != lower_keys()[j].len());
        } else if j == 11 {
            reveal_strlit("tokio-rs/bytes");
            reveal_strlit("dtolnay/quote");
            assert(lower_keys()[i].len() != lower_keys()[j].len());
        } else if j == 12 {
            reveal_strlit("tokio-rs/bytes");
            reveal_strlit("dtolnay/proc-macro2");
            assert(lower_keys()[i].len() != lower_keys()[j].len());
        } else if j == 13 {
            reveal_strlit("tokio-rs/bytes");
            reveal_strlit("dtolnay/anyhow");
            assert(lower_keys()[i][0] != lower_keys()[j][0]);
        } else if j == 14 {
            reveal_strlit("tokio-rs/bytes");
            reveal_strlit("serde-rs/serde");
            assert(lower_keys()[i][0] != lower_keys()[j][0]);
        } else if j == 15 {
            reveal_strlit("tokio-rs/bytes");
            reveal_strlit("serde-rs/json");
            assert(lower_keys()[i].len() != lower_keys()[j].len());
        } else if j == 16 {
            reveal_strlit("tokio-rs/bytes");
            reveal_strlit("rust-lang/socket2");
            assert(lower_keys()[i].len() != lower_keys()[j].len());
        } else if j == 17 {
            reveal_strlit("tokio-rs/bytes");
            reveal_strlit("rust-lang/libc");
            assert(lower_keys()[i][0] != lower_keys()[j][0]);
        } else if j == 18 {
            reveal_strlit("tokio-rs/bytes");
            reveal_strlit("rust-lang/git2-rs");
            assert(lower_keys()[i].len() != lower_keys()[j].len());
        } else if j == 19 {
            reveal_strlit("tokio-rs/bytes");
            reveal_strlit("rust-lang/git2-rs");
            assert(lower_keys()[i].len() != lower_keys()[j].len());
        } else if j == 20 {
            reveal_strlit("tokio-rs/bytes");
            reveal_strlit("rust-lang/flate2-rs");
            assert(lower_keys()[i].len() != lower_keys()[j].len());
        } else if j == 21 {
            reveal_strlit("tokio-rs/bytes");
            reveal_strlit("rust-lang/flate2-rs");
            assert(lower_keys()[i].len() != lower_keys()[j].len());
        } else if j == 22 {
            reveal_strlit("tokio-rs/bytes");
            reveal_strlit("frommi/miniz_oxide");
            assert(lower_keys()[i].len() != lower_keys()[j].len());
        } else if j == 23 {
            reveal_strlit("tokio-rs/bytes");
            reveal_strlit("srijs/rust-crc32fast");
            assert(lower_keys()[i].len() != lower_keys()[j].len());
        } else if j == 24 {
            reveal_strlit("tokio-rs/bytes");
            reveal_strlit("hyperium/http");
            assert(lower_keys()[i].len() != lower_keys()[j].len());
        } else if j == 25 {
            reveal_strlit("tokio-rs/bytes");
            reveal_strlit("hyperium/hyper");
            assert(lower_keys()[i][0] != lower_keys()[j][0]);
        } else if j == 26 {
            reveal_strlit("tokio-rs/bytes");
            reveal_strlit("seanmonstar/reqwest");
            assert(lower_keys()[i].len() != lower_keys()[j].len());
        } else if j == 27 {
            reveal_strlit("tokio-rs/bytes");
            reveal_strlit("ruby/ruby");
            assert(lower_keys()[i].len() != lower_keys()[j].len());
        } else if j == 28 {
            reveal_strlit("tokio-rs/bytes");
            reveal_strlit("jquery/jquery");
            assert(lower_keys()[i].len() != lower_keys()[j].len());
        }
    }
}

proof fn lemma_keys_agree_10()
    ensures
        forall|j: int|
            10 < j < lower_keys().len() && #[trigger] lower_keys()[j] == lower_keys()[10] ==> row_coords(
                backbone()[j],
            ) == row_coords(backbone()[10]),
{
    assert forall|j: int| 10 < j < lower_keys().len() && #[trigger] lower_keys()[j] == lower_keys()[10] implies row_coords(
        backbone()[j],
    ) == row_coords(backbone()[10]) by {
        let i = 10int;
        if j == 11 {
            reveal_strlit("dtolnay/syn");
            reveal_strlit("dtolnay/quote");
            assert(lower_keys()[i].len() != lower_keys()[j].len());
        } else if j == 12 {
            reveal_strlit("dtolnay/syn");
            reveal_strlit("dtolnay/proc-macro2");
            assert(lower_keys()[i].len() != lower_keys()[j].len());
        } else if j == 13 {
            reveal_strlit("dtolnay/syn");
            reveal_strlit("dtolnay/anyhow");
            assert(lower_keys()[i].len() != lower_keys()[j].len());
        } else if j == 14 {
            reveal_strlit("dtolnay/syn");
            reveal_strlit("serde-rs/serde");
            assert(lower_keys()[i].len() != lower_keys()[j].len());
        } else if j == 15 {
            reveal_strlit("dtolnay/syn");
            reveal_strlit("serde-rs/json");
            assert(lower_keys()[i].len() != lower_keys()[j].len());
        } else if j == 16 {
            reveal_strlit("dtolnay/syn");
            reveal_strlit("rust-lang/socket2");
            assert(lower_keys()[i].len() != lower_keys()[j].len());
        } else if j == 17 {
            reveal_strlit("dtolnay/syn");
            reveal_strlit("rust-lang/libc");
            assert(lower_keys()[i].len() != lower_keys()[j].len());
        } else if j == 18 {
            reveal_strlit("dtolnay/syn");
            reveal_strlit("rust-lang/git2-rs");
            assert(lower_keys()[i].len() != lower_keys()[j].len());
        } else if j == 19 {
            reveal_strlit("dtolnay/syn");
            reveal_strlit("rust-lang/git2-rs");
            assert(lower_keys()[i].len() != lower_keys()[j].len());
        } else if j == 20 {
            reveal_strlit("dtolnay/syn");
            reveal_strlit("rust-lang/flate2-rs");
            assert(lower_keys()[i].len() != lower_keys()[j].len());
        } else if j == 21 {
            reveal_strlit("dtolnay/syn");
            reveal_strlit("rust-lang/flate2-rs");
            assert(lower_keys()[i].len() != lower_keys()[j].len());
        } else if j == 22 {
            reveal_strlit("dtolnay/syn");
            reveal_strlit("frommi/miniz_oxide");
            assert(lower_keys()[i].len() != lower_keys()[j].len());
        } else if j == 23 {
            reveal_strlit("dtolnay/syn");
            reveal_strlit("srijs/rust-crc32fast");
            assert(lower_keys()[i].len() != lower_keys()[j].len());
        } else if j == 24 {
            reveal_strlit("dtolnay/syn");
            reveal_strlit("hyperium/http");
            assert(lower_keys()[i].len() != lower_keys()[j].len());
        } else if j == 25 {
            reveal_strlit("dtolnay/syn");
            reveal_strlit("hyperium/hyper");
            assert(lower_keys()[i].len() != lower_keys()[j].len());
        } else if j == 26 {
            reveal_strlit("dtolnay/syn");
            reveal_strlit("seanmonstar/reqwest");
            assert(lower_keys()[i].len() != lower_keys()[j].len());
        } else if j == 27 {
            reveal_strlit("dtolnay/syn");
            reveal_strlit("ruby/ruby");
            assert(lower_keys()[i].len() != lower_keys()[j].len());
        } else if j == 28 {
            reveal_strlit("dtolnay/syn");
            reveal_strlit("jquery/jquery");
            assert(lower_keys()[i].len() != lower_keys()[j].len());
        }
    }
}

proof fn lemma_keys_agree_11()
    ensures
        forall|j: int|
            11 < j < lower_keys().len() && #[trigger] lower_keys()[j] == lower_keys()[11] ==> row_coords(
                backbone()[j],
            ) == row_coords(backbone()[11]),
{
    assert forall|j: int| 11 < j < lower_keys().len() && #[trigger] lower_keys()[j] == lower_keys()[11] implies row_coords(
        backbone()[j],
    ) == row_coords(backbone()[11]) by {
        let i = 11int;
        if j == 12 {
            reveal_strlit("dtolnay/quote");
            reveal_strlit("dtolnay/proc-macro2");
            assert(lower_keys()[i].len() != lower_keys()[j].len());
        } else if j == 13 {
            reveal_strlit("dtolnay/quote");
            reveal_strlit("dtolnay/anyhow");
            assert(lower_keys()[i].len() != lower_keys()[j].len());
        } else if j == 14 {
            reveal_strlit("dtolnay/quote");
            reveal_strlit("serde-rs/serde");
            assert(lower_keys()[i].len() != lower_keys()[j].len());
        } else if j == 15 {
            reveal_strlit("dtolnay/quote");
            reveal_strlit("serde-rs/json");
            assert(lower_keys()[i][0] != lower_keys()[j][0]);
        } else if j == 16 {
            reveal_strlit("dtolnay/quote");
            reveal_strlit("rust-lang/socket2");
            assert(lower_keys()[i].len() != lower_keys()[j].len());
        } else if j == 17 {
            reveal_strlit("dtolnay/quote");
            reveal_strlit("rust-lang/libc");
            assert(lower_keys()[i].len() != lower_keys()[j].len());
        } else if j == 18 {
            reveal_strlit("dtolnay/quote");
            reveal_strlit("rust-lang/git2-rs");
            assert(lower_keys()[i].len() != lower_keys()[j].len());
        } else if j == 19 {
            reveal_strlit("dtolnay/quote");
            reveal_strlit("rust-lang/git2-rs");
            assert(lower_keys()[i].len() != lower_keys()[j].len());
        } else if j == 20 {
            reveal_strlit("dtolnay/quote");
            reveal_strlit("rust-lang/flate2-rs");
            assert(lower_keys()[i].len() != lower_keys()[j].len());
        } else if j == 21 {
            reveal_strlit("dtolnay/quote");
            reveal_strlit("rust-lang/flate2-rs");
            assert(lower_keys()[i].len() != lower_keys()[j].len());
        } else if j == 22 {
            reveal_strlit("dtolnay/quote");
            reveal_strlit("frommi/miniz_oxide");
            assert(lower_keys()[i].len() != lower_keys()[j].len());
        } else if j == 23 {
            reveal_strlit("dtolnay/quote");
            reveal_strlit("srijs/rust-crc32fast");
            assert(lower_keys()[i].len() != lower_keys()[j].len());
        } else if j == 24 {
            reveal_strlit("dtolnay/quote");
            reveal_strlit("hyperium/http");
            assert(lower_keys()[i][0] != lower_keys()[j][0]);
        } else if j == 25 {
            reveal_strlit("dtolnay/quote");
            reveal_strlit("hyperium/hyper");
            assert(lower_keys()[i].len() != lower_keys()[j].len());
        } else if j == 26 {
            reveal_strlit("dtolnay/quote");
            reveal_strlit("seanmonstar/reqwest");
            assert(lower_keys()[i].len() != lower_keys()[j].len());
        } else if j == 27 {
            reveal_strlit("dtolnay/quote");
            reveal_strlit("ruby/ruby");
            assert(lower_keys()[i].len() != lower_keys()[j].len());
        } else if j == 28 {
            reveal_strlit("dtolnay/quote");
            reveal_strlit("jquery/jquery");
            assert(lower_keys()[i][0] != lower_keys()[j][0]);
        }
    }
}

proof fn lemma_keys_agree_12()
    ensures
        forall|j: int|
            12 < j < lower_keys().len() && #[trigger] lower_keys()[j] == lower_keys()[12] ==> row_coords(
                backbone()[j],
            ) == row_coords(backbone()[12]),
{
    assert forall|j: int| 12 < j < lower_keys().len() && #[trigger] lower_keys()[j] == lower_keys()[12] implies row_coords(
        backbone()[j],
    ) == row_coords(backbone()[12]) by {
        let i = 12int;
        if j == 13 {
            reveal_strlit("dtolnay/proc-macro2");
            reveal_strlit("dtolnay/anyhow");
            assert(lower_keys()[i].len() != lower_keys()[j].len());
        } else if j == 14 {
            reveal_strlit("dtolnay/proc-macro2");
            reveal_strlit("serde-rs/serde");
            assert(lower_keys()[i].len() != lower_keys()[j].len());
        } else if j == 15 {
            reveal_strlit("dtolnay/proc-macro2");
            reveal_strlit("serde-rs/json");
            assert(lower_keys()[i].len() != lower_keys()[j].len());
        } else if j == 16 {
            reveal_strlit("dtolnay/proc-macro2");
            reveal_strlit("rust-lang/socket2");
            assert(lower_keys()[i].len() != lower_keys()[j].len());
        } else if j == 17 {
            reveal_strlit("dtolnay/proc-macro2");
            reveal_strlit("rust-lang/libc");
            assert(lower_keys()[i].len() != lower_keys()[j].len());
        } else if j == 18 {
            reveal_strlit("dtolnay/proc-macro2");
            reveal_strlit("rust-lang/git2-rs");
            assert(lower_keys()[i].len() != lower_keys()[j].len());
        } else if j == 19 {
            reveal_strlit("dtolnay/proc-macro2");
            reveal_strlit("rust-lang/git2-rs");
            assert(lower_keys()[i].len() != lower_keys()[j].len());
        } else if j == 20 {
            reveal_strlit("dtolnay/proc-macro2");
            reveal_strlit("rust-lang/flate2-rs");
            assert(lower_keys()[i][0] != lower_keys()[j][0]);
        } else if j == 21 {
            reveal_strlit("dtolnay/proc-macro2");
            reveal_strlit("rust-lang/flate2-rs");
            assert(lower_keys()[i][0] != lower_keys()[j][0]);
        } else if j == 22 {
            reveal_strlit("dtolnay/proc-macro2");
            reveal_strlit("frommi/miniz_oxide");
            assert(lower_keys()[i].len() != lower_keys()[j].len());
        } else if j == 23 {
            reveal_strlit("dtolnay/proc-macro2");
            reveal_strlit("srijs/rust-crc32fast");
            assert(lower_keys()[i].len() != lower_keys()[j].len());
        } else if j == 24 {
            reveal_strlit("dtolnay/proc-macro2");
            reveal_strlit("hyperium/http");
            assert(lower_keys()[i].len() != lower_keys()[j].len());
        } else if j == 25 {
            reveal_strlit("dtolnay/proc-macro2");
            reveal_strlit("hyperium/hyper");
            assert(lower_keys()[i].len() != lower_keys()[j].len());
        } else if j == 26 {
            reveal_strlit("dtolnay/proc-macro2");
            reveal_strlit("seanmonstar/reqwest");
            assert(lower_keys()[i][0] != lower_keys()[j][0]);
        } else if j == 27 {
            reveal_strlit("dtolnay/proc-macro2");
            reveal_strlit("ruby/ruby");
            assert(lower_keys()[i].len() != lower_keys()[j].len());
        } else if j == 28 {
            reveal_strlit("dtolnay/proc-macro2");
            reveal_strlit("jquery/jquery");
            assert(lower_keys()[i].len() != lower_keys()[j].len());
        }
    }
}

proof fn lemma_keys_agree_13()
    ensures
        forall|j: int|
            13 < j < lower_keys().len() && #[trigger] lower_keys()[j] == lower_keys()[13] ==> row_coords(
                backbone()[j],
            ) == row_coords(backbone()[13]),
{
    assert forall|j: int| 13 < j < lower_keys().len() && #[trigger] lower_keys()[j] == lower_keys()[13] implies row_coords(
        backbone()[j],
    ) == row_coords(backbone()[13]) by {
        let i = 13int;
        if j == 14 {
            reveal_strlit("dtolnay/anyhow");
            reveal_strlit("serde-rs/serde");
            assert(lower_keys()[i][0] != lower_keys()[j][0]);
        } else if j == 15 {
            reveal_strlit("dtolnay/anyhow");
            reveal_strlit("serde-rs/json");
            assert(lower_keys()[i].len() != lower_keys()[j].len());
        } else if j == 16 {
            reveal_strlit("dtolnay/anyhow");
            reveal_strlit("rust-lang/socket2");
            assert(lower_keys()[i].len() != lower_keys()[j].len());
        } else if j == 17 {
            reveal_strlit("dtolnay/anyhow");
            reveal_strlit("rust-lang/libc");
            assert(lower_keys()[i][0] != lower_keys()[j][0]);
        } else if j == 18 {
            reveal_strlit("dtolnay/anyhow");
            reveal_strlit("rust-lang/git2-rs");
            assert(lower_keys()[i].len() != lower_keys()[j].len());
        } else if j == 19 {
            reveal_strlit("dtolnay/anyhow");
            reveal_strlit("rust-lang/git2-rs");
            assert(lower_keys()[i].len() != lower_keys()[j].len());
        } else if j == 20 {
            reveal_strlit("dtolnay/anyhow");
            reveal_strlit("rust-lang/flate2-rs");
            assert(lower_keys()[i].len() != lower_keys()[j].len());
        } else if j == 21 {
            reveal_strlit("dtolnay/anyhow");
            reveal_strlit("rust-lang/flate2-rs");
            assert(lower_keys()[i].len() != lower_keys()[j].len());
        } else if j == 22 {
            reveal_strlit("dtolnay/anyhow");
            reveal_strlit("frommi/miniz_oxide");
            assert(lower_keys()[i].len() != lower_keys()[j].len());
        } else if j == 23 {
            reveal_strlit("dtolnay/anyhow");
            reveal_strlit("srijs/rust-crc32fast");
            assert(lower_keys()[i].len() != lower_keys()[j].len());
        } else if j == 24 {
            reveal_strlit("dtolnay/anyhow");
            reveal_strlit("hyperium/http");
            assert(lower_keys()[i].len() != lower_keys()[j].len());
        } else if j == 25 {
            reveal_strlit("dtolnay/anyhow");
            reveal_strlit("hyperium/hyper");
            assert(lower_keys()[i][0] != lower_keys()[j][0]);
        } else if j == 26 {
            reveal_strlit("dtolnay/anyhow");
            reveal_strlit("seanmonstar/reqwest");
            assert(lower_keys()[i].len() != lower_keys()[j].len());
        } else if j == 27 {
            reveal_strlit("dtolnay/anyhow");
            reveal_strlit("ruby/ruby");
            assert(lower_keys()[i].len() != lower_keys()[j].len());
        } else if j == 28 {
            reveal_strlit("dtolnay/anyhow");
            reveal_strlit("jquery/jquery");
            assert(lower_keys()[i].len() != lower_keys()[j].len());
        }
    }
}

proof fn lemma_keys_agree_14()
    ensures
        forall|j: int|
            14 < j < lower_keys().len() && #[trigger] lower_keys()[j] == lower_keys()[14] ==> row_coords(
                backbone()[j],
            ) == row_coords(backbone()[14]),
{
    assert forall|j: int| 14 < j < lower_keys().len() && #[trigger] lower_keys()[j] == lower_keys()[14] implies row_coords(
        backbone()[j],
    ) == row_coords(backbone()[14]) by {
        let i = 14int;
        if j == 15 {
            reveal_strlit("serde-rs/serde");
            reveal_strlit("serde-rs/json");
            assert(lower_keys()[i].len() != lower_keys()[j].len());
        } else if j == 16 {
            reveal_strlit("serde-rs/serde");
            reveal_strlit("rust-lang/socket2");
            assert(lower_keys()[i].len() != lower_keys()[j].len());
        } else if j == 17 {
            reveal_strlit("serde-rs/serde");
            reveal_strlit("rust-lang/libc");
            assert(lower_keys()[i][0] != lower_keys()[j][0]);
        } else if j == 18 {
            reveal_strlit("serde-rs/serde");
            reveal_strlit("rust-lang/git2-rs");
            assert(lower_keys()[i].len() != lower_keys()[j].len());
        } else if j == 19 {
            reveal_strlit("serde-rs/serde");
            reveal_strlit("rust-lang/git2-rs");
            assert(lower_keys()[i].len() != lower_keys()[j].len());
        } else if j == 20 {
            reveal_strlit("serde-rs/serde");
            reveal_strlit("rust-lang/flate2-rs");
            assert(lower_keys()[i].len() != lower_keys()[j].len());
        } else if j == 21 {
            reveal_strlit("serde-rs/serde");
            reveal_strlit("rust-lang/flate2-rs");
            assert(lower_keys()[i].len() != lower_keys()[j].len());
        } else if j == 22 {
            reveal_strlit("serde-rs/serde");
            reveal_strlit("frommi/miniz_oxide");
            assert(lower_keys()[i].len() != lower_keys()[j].len());
        } else if j == 23 {
            reveal_strlit("serde-rs/serde");
            reveal_strlit("srijs/rust-crc32fast");
            assert(lower_keys()[i].len() != lower_keys()[j].len());
        } else if j == 24 {
            reveal_strlit("serde-rs/serde");
            reveal_strlit("hyperium/http");
            assert(lower_keys()[i].len() != lower_keys()[j].len());
        } else if j == 25 {
            reveal_strlit("serde-rs/serde");
            reveal_strlit("hyperium/hyper");
            assert(lower_keys()[i][0] != lower_keys()[j][0]);
        } else if j == 26 {
            reveal_strlit("serde-rs/serde");
            reveal_strlit("seanmonstar/reqwest");
            assert(lower_keys()[i].len() != lower_keys()[j].len());
        } else if j == 27 {
            reveal_strlit("serde-rs/serde");
            reveal_strlit("ruby/ruby");
            assert(lower_keys()[i].len() != lower_keys()[j].len());
        } else if j == 28 {
            reveal_strlit("serde-rs/serde");
            reveal_strlit("jquery/jquery");
            assert(lower_keys()[i].len() != lower_keys()[j].len());
        }
    }
}

proof fn lemma_keys_agree_15()
    ensures
        forall|j: int|
            15 < j < lower_keys().len() && #[trigger] lower_keys()[j] == lower_keys()[15] ==> row_coords(
                backbone()[j],
            ) == row_coords(backbone()[15]),
{
    assert forall|j: int| 15 < j < lower_keys().len() && #[trigger] lower_keys()[j] == lower_keys()[15] implies row_coords(
        backbone()[j],
    ) == row_coords(backbone()[15]) by {
        let i = 15int;
        if j == 16 {
            reveal_strlit("serde-rs/json");
            reveal_strlit("rust-lang/socket2");
            assert(lower_keys()[i].len() != lower_keys()[j].len());
        } else if j == 17 {
            reveal_strlit("serde-rs/json");
            reveal_strlit("rust-lang/libc");
            assert(lower_keys()[i].len() != lower_keys()[j].len());
        } else if j == 18 {
            reveal_strlit("serde-rs/json");
            reveal_strlit("rust-lang/git2-rs");
            assert(lower_keys()[i].len() != lower_keys()[j].len());
        } else if j == 19 {
            reveal_strlit("serde-rs/json");
            reveal_strlit("rust-lang/git2-rs");
            assert(lower_keys()[i].len() != lower_keys()[j].len());
        } else if j == 20 {
            reveal_strlit("serde-rs/json");
            reveal_strlit("rust-lang/flate2-rs");
            assert(lower_keys()[i].len() != lower_keys()[j].len());
        } else if j == 21 {
            reveal_strlit("serde-rs/json");
            reveal_strlit("rust-lang/flate2-rs");
            assert(lower_keys()[i].len() != lower_keys()[j].len());
        } else if j == 22 {
            reveal_strlit("serde-rs/json");
            reveal_strlit("frommi/miniz_oxide");
            assert(lower_keys()[i].len() != lower_keys()[j].len());
        } else if j == 23 {
            reveal_strlit("serde-rs/json");
            reveal_strlit("srijs/rust-crc32fast");
            assert(lower_keys()[i].len() != lower_keys()[j].len());
        } else if j == 24 {
            reveal_strlit("serde-rs/json");
            reveal_strlit("hyperium/http");
            assert(lower_keys()[i][0] != lower_keys()[j][0]);
        } else if j == 25 {
            reveal_strlit("serde-rs/json");
            reveal_strlit("hyperium/hyper");
            assert(lower_keys()[i].len() != lower_keys()[j].len());
        } else if j == 26 {
            reveal_strlit("serde-rs/json");
            reveal_strlit("seanmonstar/reqwest");
            assert(lower_keys()[i].len() != lower_keys()[j].len());
        } else if j == 27 {
            reveal_strlit("serde-rs/json");
            reveal_strlit("ruby/ruby");
            assert(lower_keys()[i].len() != lower_keys()[j].len());
        } else if j == 28 {
            reveal_strlit("serde-rs/json");
            reveal_strlit("jquery/jquery");
            assert(lower_keys()[i][0] != lower_keys()[j][0]);
        }
    }
}

proof fn lemma_keys_agree_16()
    ensures
        forall|j: int|
            16 < j < lower_keys().len() && #[trigger] lower_keys()[j] == lower_keys()[16] ==> row_coords(
                backbone()[j],
            ) == row_coords(backbone()[16]),
{
    assert forall|j: int| 16 < j < lower_keys().len() && #[trigger] lower_keys()[j] == lower_keys()[16] implies row_coords(
        backbone()[j],
    ) == row_coords(backbone()[16]) by {
        let i = 16int;
        if j == 17 {
            reveal_strlit("rust-lang/socket2");
            reveal_strlit("rust-lang/libc");
            assert(lower_keys()[i].len() != lower_keys()[j].len());
        } else if j == 18 {
            reveal_strlit("rust-lang/socket2");
            reveal_strlit("rust-lang/git2-rs");
            assert(lower_keys()[i][10] != lower_keys()[j][10]);
        } else if j == 19 {
            reveal_strlit("rust-lang/socket2");
            reveal_strlit("rust-lang/git2-rs");
            assert(lower_keys()[i][10] != lower_keys()[j][10]);
        } else if j == 20 {
            reveal_strlit("rust-lang/socket2");
            reveal_strlit("rust-lang/flate2-rs");
            assert(lower_keys()[i].len() != lower_keys()[j].len());
        } else if j == 21 {
            reveal_strlit("rust-lang/socket2");
            reveal_strlit("rust-lang/flate2-rs");
            assert(lower_keys()[i].len() != lower_keys()[j].len());
        } else if j == 22 {
            reveal_strlit("rust-lang/socket2");
            reveal_strlit("frommi/miniz_oxide");
            assert(lower_keys()[i].len() != lower_keys()[j].len());
        } else if j == 23 {
            reveal_strlit("rust-lang/socket2");
            reveal_strlit("srijs/rust-crc32fast");
            assert(lower_keys()[i].len() != lower_keys()[j].len());
        } else if j == 24 {
            reveal_strlit("rust-lang/socket2");
            reveal_strlit("hyperium/http");
            assert(lower_keys()[i].len() != lower_keys()[j].len());
        } else if j == 25 {
            reveal_strlit("rust-lang/socket2");
            reveal_strlit("hyperium/hyper");
            assert(lower_keys()[i].len() != lower_keys()[j].len());
        } else if j == 26 {
            reveal_strlit("rust-lang/socket2");
            reveal_strlit("seanmonstar/reqwest");
            assert(lower_keys()[i].len() != lower_keys()[j].len());
        } else if j == 27 {
            reveal_strlit("rust-lang/socket2");
            reveal_strlit("ruby/ruby");
            assert(lower_keys()[i].len() != lower_keys()[j].len());
        } else if j == 28 {
            reveal_strlit("rust-lang/socket2");
            reveal_strlit("jquery/jquery");
            assert(lower_keys()[i].len() != lower_keys()[j].len());
        }
    }
}

proof fn lemma_keys_agree_17()
    ensures
        forall|j: int|
            17 < j < lower_keys().len() && #[trigger] lower_keys()[j] == lower_keys()[17] ==> row_coords(
                backbone()[j],
            ) == row_coords(backbone()[17]),
{
    assert forall|j: int| 17 < j < lower_keys().len() && #[trigger] lower_keys()[j] == lower_keys()[17] implies row_coords(
        backbone()[j],
    ) == row_coords(backbone()[17]) by {
        let i = 17int;
        if j == 18 {
            reveal_strlit("rust-lang/libc");
            reveal_strlit("rust-lang/git2-rs");
            assert(lower_keys()[i].len() != lower_keys()[j].len());
        } else if j == 19 {
            reveal_strlit("rust-lang/libc");
            reveal_strlit("rust-lang/git2-rs");
            assert(lower_keys()[i].len() != lower_keys()[j].len());
        } else if j == 20 {
            reveal_strlit("rust-lang/libc");
            reveal_strlit("rust-lang/flate2-rs");
            assert(lower_keys()[i].len() != lower_keys()[j].len());
        } else if j == 21 {
            reveal_strlit("rust-lang/libc");
            reveal_strlit("rust-lang/flate2-rs");
            assert(lower_keys()[i].len() != lower_keys()[j].len());
        } else if j == 22 {
            reveal_strlit("rust-lang/libc");
            reveal_strlit("frommi/miniz_oxide");
            assert(lower_keys()[i].len() != lower_keys()[j].len());
        } else if j == 23 {
            reveal_strlit("rust-lang/libc");
            reveal_strlit("srijs/rust-crc32fast");
            assert(lower_keys()[i].len() != lower_keys()[j].len());
        } else if j == 24 {
            reveal_strlit("rust-lang/libc");
            reveal_strlit("hyperium/http");
            assert(lower_keys()[i].len() != lower_keys()[j].len());
        } else if j == 25 {
            reveal_strlit("rust-lang/libc");
            reveal_strlit("hyperium/hyper");
            assert(lower_keys()[i][0] != lower_keys()[j][0]);
        } else if j == 26 {
            reveal_strlit("rust-lang/libc");
            reveal_strlit("seanmonstar/reqwest");
            assert(lower_keys()[i].len() != lower_keys()[j].len());
        } else if j == 27 {
            reveal_strlit("rust-lang/libc");
            reveal_strlit("ruby/ruby");
            assert(lower_keys()[i].len() != lower_keys()[j].len());
        } else if j == 28 {
            reveal_strlit("rust-lang/libc");
            reveal_strlit("jquery/jquery");
            assert(lower_keys()[i].len() != lower_keys()[j].len());
        }
    }
}

proof fn lemma_keys_agree_18()
    ensures
        forall|j: int|
            18 < j < lower_keys().len() && #[trigger] lower_keys()[j] == lower_keys()[18] ==> row_coords(
                backbone()[j],
            ) == row_coords(backbone()[18]),
{
    assert forall|j: int| 18 < j < lower_keys().len() && #[trigger] lower_keys()[j] == lower_keys()[18] implies row_coords(
        backbone()[j],
    ) == row_coords(backbone()[18]) by {
        let i = 18int;
        if j == 19 {
            reveal_strlit("rust-lang/git2-rs");
            reveal_strlit("rust-lang/git2-rs");
            assert(row_coords(backbone()[i]) == row_coords(backbone()[j]));
        } else if j == 20 {
            reveal_strlit("rust-lang/git2-rs");
            reveal_strlit("rust-lang/flate2-rs");
            assert(lower_keys()[i].len() != lower_keys()[j].len());
        } else if j == 21 {
            reveal_strlit("rust-lang/git2-rs");
            reveal_strlit("rust-lang/flate2-rs");
            assert(lower_keys()[i].len() != lower_keys()[j].len());
        } else if j == 22 {
            reveal_strlit("rust-lang/git2-rs");
            reveal_strlit("frommi/miniz_oxide");
            assert(lower_keys()[i].len() != lower_keys()[j].len());
        } else if j == 23 {
            reveal_strlit("rust-lang/git2-rs");
            reveal_strlit("srijs/rust-crc32fast");
            assert(lower_keys()[i].len() != lower_keys()[j].len());
        } else if j == 24 {
            reveal_strlit("rust-lang/git2-rs");
            reveal_strlit("hyperium/http");
            assert(lower_keys()[i].len() != lower_keys()[j].len());
        } else if j == 25 {
            reveal_strlit("rust-lang/git2-rs");
            reveal_strlit("hyperium/hyper");
            assert(lower_keys()[i].len() != lower_keys()[j].len());
        } else if j == 26 {
            reveal_strlit("rust-lang/git2-rs");
            reveal_strlit("seanmonstar/reqwest");
            assert(lower_keys()[i].len() != lower_keys()[j].len());
        } else if j == 27 {
            reveal_strlit("rust-lang/git2-rs");
            reveal_strlit("ruby/ruby");
            assert(lower_keys()[i].len() != lower_keys()[j].len());
        } else if j == 28 {
            reveal_strlit("rust-lang/git2-rs");
            reveal_strlit("jquery/jquery");
            assert(lower_keys()[i].len() != lower_keys()[j].len());
        }
    }
}

proof fn lemma_keys_agree_19()
    ensures
        forall|j: int|
            19 < j < lower_keys().len() && #[trigger] lower_keys()[j] == lower_keys()[19] ==> row_coords(
                backbone()[j],
            ) == row_coords(backbone()[19]),
{
    assert forall|j: int| 19 < j < lower_keys().len() && #[trigger] lower_keys()[j] == lower_keys()[19] implies row_coords(
        backbone()[j],
    ) == row_coords(backbone()[19]) by {
        let i = 19int;
        if j == 20 {
            reveal_strlit("rust-lang/git2-rs");
            reveal_strlit("rust-lang/flate2-rs");
            assert(lower_keys()[i].len() != lower_keys()[j].len());
        } else if j == 21 {
            reveal_strlit("rust-lang/git2-rs");
            reveal_strlit("rust-lang/flate2-rs");
            assert(lower_keys()[i].len() != lower_keys()[j].len());
        } else if j == 22 {
            reveal_strlit("rust-lang/git2-rs");
            reveal_strlit("frommi/miniz_oxide");
            assert(lower_keys()[i].len() != lower_keys()[j].len());
        } else if j == 23 {
            reveal_strlit("rust-lang/git2-rs");
            reveal_strlit("srijs/rust-crc32fast");
            assert(lower_keys()[i].len() != lower_keys()[j].len());
        } else if j == 24 {
            reveal_strlit("rust-lang/git2-rs");
            reveal_strlit("hyperium/http");
            assert(lower_keys()[i].len() != lower_keys()[j].len());
        } else if j == 25 {
            reveal_strlit("rust-lang/git2-rs");
            reveal_strlit("hyperium/hyper");
            assert(lower_keys()[i].len() != lower_keys()[j].len());
        } else if j == 26 {
            reveal_strlit("rust-lang/git2-rs");
            reveal_strlit("seanmonstar/reqwest");
            assert(lower_keys()[i].len() != lower_keys()[j].len());
        } else if j == 27 {
            reveal_strlit("rust-lang/git2-rs");
            reveal_strlit("ruby/ruby");
            assert(lower_keys()[i].len() != lower_keys()[j].len());
        } else if j == 28 {
            reveal_strlit("rust-lang/git2-rs");
            reveal_strlit("jquery/jquery");
            assert(lower_keys()[i].len() != lower_keys()[j].len());
        }
    }
}

proof fn lemma_keys_agree_20()
    ensures
        forall|j: int|
            20 < j < lower_keys().len() && #[trigger] lower_keys()[j] == lower_keys()[20] ==> row_coords(
                backbone()[j],
            ) == row_coords(backbone()[20]),
{
    assert forall|j: int| 20 < j < lower_keys().len() && #[trigger] lower_keys()[j] == lower_keys()[20] implies row_coords(
        backbone()[j],
    ) == row_coords(backbone()[20]) by {
        let i = 20int;
        if j == 21 {
            reveal_strlit("rust-lang/flate2-rs");
            reveal_strlit("rust-lang/flate2-rs");
            assert(row_coords(backbone()[i]) == row_coords(backbone()[j]));
        } else if j == 22 {
            reveal_strlit("rust-lang/flate2-rs");
            reveal_strlit("frommi/miniz_oxide");
            assert(lower_keys()[i].len() != lower_keys()[j].len());
        } else if j == 23 {
            reveal_strlit("rust-lang/flate2-rs");
            reveal_strlit("srijs/rust-crc32fast");
            assert(lower_keys()[i].len() != lower_keys()[j].len());
        } else if j == 24 {
            reveal_strlit("rust-lang/flate2-rs");
            reveal_strlit("hyperium/http");
            assert(lower_keys()[i].len() != lower_keys()[j].len());
        } else if j == 25 {
            reveal_strlit("rust-lang/flate2-rs");
            reveal_strlit("hyperium/hyper");
            assert(lower_keys()[i].len() != lower_keys()[j].len());
        } else if j == 26 {
            reveal_strlit("rust-lang/flate2-rs");
            reveal_strlit("seanmonstar/reqwest");
            assert(lower_keys()[i][0] != lower_keys()[j][0]);
        } else if j == 27 {
            reveal_strlit("rust-lang/flate2-rs");
            reveal_strlit("ruby/ruby");
            assert(lower_keys()[i].len() != lower_keys()[j].len());
        } else if j == 28 {
            reveal_strlit("rust-lang/flate2-rs");
            reveal_strlit("jquery/jquery");
            assert(lower_keys()[i].len() != lower_keys()[j].len());
        }
    }
}

proof fn lemma_keys_agree_21()
    ensures
        forall|j: int|
            21 < j < lower_keys().len() && #[trigger] lower_keys()[j] == lower_keys()[21] ==> row_coords(
                backbone()[j],
            ) == row_coords(backbone()[21]),
{
    assert forall|j: int| 21 < j < lower_keys().len() && #[trigger] lower_keys()[j] == lower_keys()[21] implies row_coords(
        backbone()[j],
    ) == row_coords(backbone()[21]) by {
        let i = 21int;
        if j == 22 {
            reveal_strlit("rust-lang/flate2-rs");
            reveal_strlit("frommi/miniz_oxide");
            assert(lower_keys()[i].len() != lower_keys()[j].len());
        } else if j == 23 {
            reveal_strlit("rust-lang/flate2-rs");
            reveal_strlit("srijs/rust-crc32fast");
            assert(lower_keys()[i].len() != lower_keys()[j].len());
        } else if j == 24 {
            reveal_strlit("rust-lang/flate2-rs");
            reveal_strlit("hyperium/http");
            assert(lower_keys()[i].len() != lower_keys()[j].len());
        } else if j == 25 {
            reveal_strlit("rust-lang/flate2-rs");
            reveal_strlit("hyperium/hyper");
            assert(lower_keys()[i].len() != lower_keys()[j].len());
        } else if j == 26 {
            reveal_strlit("rust-lang/flate2-rs");
            reveal_strlit("seanmonstar/reqwest");
            assert(lower_keys()[i][0] != lower_keys()[j][0]);
        } else if j == 27 {
            reveal_strlit("rust-lang/flate2-rs");
            reveal_strlit("ruby/ruby");
            assert(lower_keys()[i].len() != lower_keys()[j].len());
        } else if j == 28 {
            reveal_strlit("rust-lang/flate2-rs");
            reveal_strlit("jquery/jquery");
            assert(lower_keys()[i].len() != lower_keys()[j].len());
        }
    }
}

proof fn lemma_keys_agree_22()
    ensures
        forall|j: int|
            22 < j < lower_keys().len() && #[trigger] lower_keys()[j] == lower_keys()[22] ==> row_coords(
                backbone()[j],
            ) == row_coords(backbone()[22]),
{
    assert forall|j: int| 22 < j < lower_keys().len() && #[trigger] lower_keys()[j] == lower_keys()[22] implies row_coords(
        backbone()[j],
    ) == row_coords(backbone()[22]) by {
        let i = 22int;
        if j == 23 {
            reveal_strlit("frommi/miniz_oxide");
            reveal_strlit("srijs/rust-crc32fast");
            assert(lower_keys()[i].len() != lower_keys()[j].len());
        } else if j == 24 {
            reveal_strlit("frommi/miniz_oxide");
            reveal_strlit("hyperium/http");
            assert(lower_keys()[i].len() != lower_keys()[j].len());
        } else if j == 25 {
            reveal_strlit("frommi/miniz_oxide");
            reveal_strlit("hyperium/hyper");
            assert(lower_keys()[i].len() != lower_keys()[j].len());
        } else if j == 26 {
            reveal_strlit("frommi/miniz_oxide");
            reveal_strlit("seanmonstar/reqwest");
            assert(lower_keys()[i].len() != lower_keys()[j].len());
        } else if j == 27 {
            reveal_strlit("frommi/miniz_oxide");
            reveal_strlit("ruby/ruby");
            assert(lower_keys()[i].len() != lower_keys()[j].len());
        } else if j == 28 {
            reveal_strlit("frommi/miniz_oxide");
            reveal_strlit("jquery/jquery");
            assert(lower_keys()[i].len() != lower_keys()[j].len());
        }
    }
}

proof fn lemma_keys_agree_23()
    ensures
        forall|j: int|
            23 < j < lower_keys().len() && #[trigger] lower_keys()[j] == lower_keys()[23] ==> row_coords(
                backbone()[j],
            ) == row_coords(backbone()[23]),
{
    assert forall|j: int| 23 < j < lower_keys().len() && #[trigger] lower_keys()[j] == lower_keys()[23] implies row_coords(
        backbone()[j],
    ) == row_coords(backbone()[23]) by {
        let i = 23int;
        if j == 24 {
            reveal_strlit("srijs/rust-crc32fast");
            reveal_strlit("hyperium/http");
            assert(lower_keys()[i].len() != lower_keys()[j].len());
        } else if j == 25 {
            reveal_strlit("srijs/rust-crc32fast");
            reveal_strlit("hyperium/hyper");
            assert(lower_keys()[i].len() != lower_keys()[j].len());
        } else if j == 26 {
            reveal_strlit("srijs/rust-crc32fast");
            reveal_strlit("seanmonstar/reqwest");
            assert(lower_keys()[i].len() != lower_keys()[j].len());
        } else if j == 27 {
            reveal_strlit("srijs/rust-crc32fast");
            reveal_strlit("ruby/ruby");
            assert(lower_keys()[i].len() != lower_keys()[j].len());
        } else if j == 28 {
            reveal_strlit("srijs/rust-crc32fast");
            reveal_strlit("jquery/jquery");
            assert(lower_keys()[i].len() != lower_keys()[j].len());
        }
    }
}

proof fn lemma_keys_agree_24()
    ensures
        forall|j: int|
            24 < j < lower_keys().len() && #[trigger] lower_keys()[j] == lower_keys()[24] ==> row_coords(
                backbone()[j],
            ) == row_coords(backbone()[24]),
{
    assert forall|j: int| 24 < j < lower_keys().len() && #[trigger] lower_keys()[j] == lower_keys()[24] implies row_coords(
        backbone()[j],
    ) == row_coords(backbone()[24]) by {
        let i = 24int;
        if j == 25 {
            reveal_strlit("hyperium/http");
            reveal_strlit("hyperium/hyper");
            assert(lower_keys()[i].len() != lower_keys()[j].len());
        } else if j == 26 {
            reveal_strlit("hyperium/http");
            reveal_strlit("seanmonstar/reqwest");
            assert(lower_keys()[i].len() != lower_keys()[j].len());
        } else if j == 27 {
            reveal_strlit("hyperium/http");
            reveal_strlit("ruby/ruby");
            assert(lower_keys()[i].len() != lower_keys()[j].len());
        } else if j == 28 {
            reveal_strlit("hyperium/http");
            reveal_strlit("jquery/jquery");
            assert(lower_keys()[i][0] != lower_keys()[j][0]);
        }
    }
}

proof fn lemma_keys_agree_25()
    ensures
        forall|j: int|
            25 < j < lower_keys().len() && #[trigger] lower_keys()[j] == lower_keys()[25] ==> row_coords(
                backbone()[j],
            ) == row_coords(backbone()[25]),
{
    assert forall|j: int| 25 < j < lower_keys().len() && #[trigger] lower_keys()[j] == lower_keys()[25] implies row_coords(
        backbone()[j],
    ) == row_coords(backbone()[25]) by {
        let i = 25int;
        if j == 26 {
            reveal_strlit("hyperium/hyper");
            reveal_strlit("seanmonstar/reqwest");
            assert(lower_keys()[i].len() != lower_keys()[j].len());
        } else if j == 27 {
            reveal_strlit("hyperium/hyper");
            reveal_strlit("ruby/ruby");
            assert(lower_keys()[i].len() != lower_keys()[j].len());
        } else if j == 28 {
            reveal_strlit("hyperium/hyper");
            reveal_strlit("jquery/jquery");
            assert(lower_keys()[i].len() != lower_keys()[j].len());
        }
    }
}

proof fn lemma_keys_agree_26()
    ensures
        forall|j: int|
            26 < j < lower_keys().len() && #[trigger] lower_keys()[j] == lower_keys()[26] ==> row_coords(
                backbone()[j],
            ) == row_coords(backbone()[26]),
{
    assert forall|j: int| 26 < j < lower_keys().len() && #[trigger] lower_keys()[j] == lower_keys()[26] implies row_coords(
        backbone()[j],
    ) == row_coords(backbone()[26]) by {
        let i = 26int;
        if j == 27 {
            reveal_strlit("seanmonstar/reqwest");
            reveal_strlit("ruby/ruby");
            assert(lower_keys()[i].len() != lower_keys()[j].len());
        } else if j == 28 {
            reveal_strlit("seanmonstar/reqwest");
            reveal_strlit("jquery/jquery");
            assert(lower_keys()[i].len() != lower_keys()[j].len());
        }
    }
}

proof fn lemma_keys_agree_27()
    ensures
        forall|j: int|
            27 < j < lower_keys().len() && #[trigger] lower_keys()[j] == lower_keys()[27] ==> row_coords(
                backbone()[j],
            ) == row_coords(backbone()[27]),
{
    assert forall|j: int| 27 < j < lower_keys().len() && #[trigger] lower_keys()[j] == lower_keys()[27] implies row_coords(
        backbone()[j],
    ) == row_coords(backbone()[27]) by {
        let i = 27int;
        if j == 28 {
            reveal_strlit("ruby/ruby");
            reveal_strlit("jquery/jquery");
            assert(lower_keys()[i].len() != lower_keys()[j].len());
        }
    }
}

proof fn lemma_keys_agree_28()
    ensures
        forall|j: int|
            28 < j < lower_keys().len() && #[trigger] lower_keys()[j] == lower_keys()[28] ==> row_coords(
                backbone()[j],
            ) == row_coords(backbone()[28]),
{
    assert forall|j: int| 28 < j < lower_keys().len() && #[trigger] lower_keys()[j] == lower_keys()[28] implies row_coords(
        backbone()[j],
    ) == row_coords(backbone()[28]) by {
        let i = 28int;

    }
}

/// Rows whose lower-cased keys are equal point at the same repository and
/// commit.
proof fn lemma_keys_agree()
    ensures
        forall|i: int, j: int|
            0 <= i < j < lower_keys().len() && lower_keys()[i] == lower_keys()[j] ==> row_coords(
                #[trigger] backbone()[i],
            ) == row_coords(#[trigger] backbone()[j]),
{
    assert forall|i: int, j: int|
        0 <= i < j < lower_keys().len() && lower_keys()[i] == lower_keys()[j] implies row_coords(
            #[trigger] backbone()[i],
        ) == row_coords(#[trigger] backbone()[j]) by {
        if i == 0 {
            lemma_keys_agree_0();
        } else if i == 1 {
            lemma_keys_agree_1();
        } else if i == 2 {
            lemma_keys_agree_2();
        } else if i == 3 {
            lemma_keys_agree_3();
        } else if i == 4 {
            lemma_keys_agree_4();
        } else if i == 5 {
            lemma_keys_agree_5();
        } else if i == 6 {
            lemma_keys_agree_6();
        } else if i == 7 {
            lemma_keys_agree_7();
        } else if i == 8 {
            lemma_keys_agree_8();
        } else if i == 9 {
            lemma_keys_agree_9();
        } else if i == 10 {
            lemma_keys_agree_10();
        } else if i == 11 {
            lemma_keys_agree_11();
        } else if i == 12 {
            lemma_keys_agree_12();
        } else if i == 13 {
            lemma_keys_agree_13();
        } else if i == 14 {
            lemma_keys_agree_14();
        } else if i == 15 {
            lemma_keys_agree_15();
        } else if i == 16 {
            lemma_keys_agree_16();
        } else if i == 17 {
            lemma_keys_agree_17();
        } else if i == 18 {
            lemma_keys_agree_18();
        } else if i == 19 {
            lemma_keys_agree_19();
        } else if i == 20 {
            lemma_keys_agree_20();
        } else if i == 21 {
            lemma_keys_agree_21();
        } else if i == 22 {
            lemma_keys_agree_22();
        } else if i == 23 {
            lemma_keys_agree_23();
        } else if i == 24 {
            lemma_keys_agree_24();
        } else if i == 25 {
            lemma_keys_agree_25();
        } else if i == 26 {
            lemma_keys_agree_26();
        } else if i == 27 {
            lemma_keys_agree_27();
        } else if i == 28 {
            lemma_keys_agree_28();
        }
    }
}

/// A lower-cased query holding a `/` resolves to the first backbone row
/// whose lower-cased key it is.
proof fn lemma_resolve_by_key(q: Seq<char>, j: int)
    requires
        text::has_char(q, '/'),
        0 <= j < backbone().len(),
        lower_keys()[j] == q,
        forall|i: int| 0 <= i < j ==> lower_keys()[i] != q,
    ensures
        resolve_from(q, None) == Some(row_coords(backbone()[j])),
{
    reveal_strlit("-rs");
    reveal_strlit("_rs");
    lemma_backbone_keys();
    assert(!text::has_char("-rs"@, '/'));
    assert(!text::has_char("_rs"@, '/'));
    text::lemma_replace_keeps_char(q, "-rs"@, '/');
    text::lemma_replace_keeps_char(text::replace_seq(q, "-rs"@, Seq::empty()), "_rs"@, '/');
    let clean = clean_name(q);
    assert(text::has_char(clean, '/'));
    let ex = |e: BackboneRow| exact_match(q, clean, e);
    assert forall|i: int| 0 <= i < j implies !ex(backbone()[i]) by {
        assert(!text::has_char(backbone()[i].0, '/'));
        assert(lower_keys()[i] != q);
    }
    assert(ex(backbone()[j]));
    assert(text::is_first_where(backbone(), ex, j));
    text::lemma_first_where(backbone(), ex, j);
}

/// Every backbone repository is found again by its `org/repo` name.
pub proof fn law_backbone_found_by_name(k: int)
    requires
        0 <= k < backbone().len(),
    ensures
        resolve_spec(slash_join(backbone()[k].1, backbone()[k].2), None) == Some(row_coords(backbone()[k])),
{
    lemma_backbone_keys();
    lemma_keys_agree();
    let q = lower_keys()[k];
    assert(!text::has_char(backbone()[k].0, '/'));
    assert(normalized_query(slash_join(backbone()[k].1, backbone()[k].2)) == q);
    let j = text::lemma_first_copy(lower_keys(), k);
    lemma_resolve_by_key(q, j);
    if j < k {
        assert(row_coords(backbone()[j]) == row_coords(backbone()[k]));
    }
}

/// Without a cache listing, whatever a query resolves to is the commit of a
/// backbone row.
pub proof fn lemma_resolved_commit_is_backbone(q: Seq<char>)
    ensures
        resolve_from(q, None) matches Some(x) ==> exists|k: int|
            0 <= k < backbone().len() && x.2 == #[trigger] backbone()[k].3,
{
    let clean = clean_name(q);
    let ex = |e: BackboneRow| exact_match(q, clean, e);
    let pa = |e: BackboneRow| partial_match(clean, e);
    if text::any_where(backbone(), ex) {
        text::lemma_first_where_holds(backbone(), ex);
        let k = text::first_where(backbone(), ex);
        assert(resolve_from(q, None) == Some(row_coords(backbone()[k])));
    } else if text::any_where(backbone(), pa) {
        text::lemma_first_where_holds(backbone(), pa);
        let k = text::first_where(backbone(), pa);
        assert(resolve_from(q, None) == Some(row_coords(backbone()[k])));
    }
}

/// A lower-cased query without `/` or the `-rs`/`_rs` markers that is the
/// alias of backbone row `j`, and of no earlier row, resolves to row `j`.
pub proof fn lemma_resolve_by_alias(q: Seq<char>, j: int)
    requires
        !text::has_char(q, '/'),
        !text::contains_seq(q, "-rs"@),
        !text::contains_seq(q, "_rs"@),
        0 <= j < backbone().len(),
        backbone()[j].0 == q,
        forall|i: int| 0 <= i < j ==> backbone()[i].0 != q,
    ensures
        resolve_from(q, None) == Some(row_coords(backbone()[j])),
{
    reveal_strlit("-rs");
    reveal_strlit("_rs");
    lemma_backbone_keys();
    text::lemma_replace_absent(q, "-rs"@, Seq::empty());
    text::lemma_replace_absent(q, "_rs"@, Seq::empty());
    let clean = clean_name(q);
    assert(clean == q);
    let ex = |e: BackboneRow| exact_match(q, clean, e);
    assert forall|i: int| 0 <= i < j implies !ex(backbone()[i]) by {
        assert(!text::has_char(backbone()[i].0, '/'));
        assert(text::has_char(lower_keys()[i], '/'));
    }
    assert(ex(backbone()[j]));
    assert(text::is_first_where(backbone(), ex, j));
    text::lemma_first_where(backbone(), ex, j);
}

} // verus!
