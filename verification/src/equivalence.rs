//! Cross-commit equivalences: mapping the commit a lockfile pins to the
//! canonical release commit that the knowledge graph holds.
use vstd::prelude::*;
use crate::registry;
use crate::text;

verus! {

/// A lockfile commit of a package and the release commit it stands for.
#[derive(Debug, Clone, PartialEq, Eq)]
pub struct CrossCommitEquivalence {
    pub package: &'static str,
    pub org: &'static str,
    pub repo: &'static str,
    pub lockfile_sha: &'static str,
    pub canonical_sha: &'static str,
    pub release_tag: Option<&'static str>,
}

/// Equivalence row: (package, org, repo, lockfile sha, canonical sha).
pub type EquivalenceRow = (Seq<char>, Seq<char>, Seq<char>, Seq<char>, Seq<char>);

/// View of a table entry.
pub open spec fn equivalence_row(e: CrossCommitEquivalence) -> EquivalenceRow {
    (e.package@, e.org@, e.repo@, e.lockfile_sha@, e.canonical_sha@)
}

/// The known equivalences between lockfile commits and release commits.
pub open spec fn known_equivalences() -> Seq<EquivalenceRow> {
    seq![
        ("syn"@, "dtolnay"@, "syn"@, "0e4bc64fe1e07a574b6f3133927a27991fd40c2e"@,
            "7bcb37cdb3399977658c8b52d2441d37e42e48f2"@),
        ("regex"@, "rust-lang"@, "regex"@, "2b527599eb9eea0dcc288c704584f242f26a5c61"@,
            "25a15e272b3ae5aee76b525902c2ab91b0d9e12e"@),
        ("quote"@, "dtolnay"@, "quote"@, "b01743f24cb5b19f96a3eac6bce0e7aee10f6199"@,
            "842ffde933fdd76cd1681a288bed136d8b95a97a"@),
        ("proc-macro2"@, "dtolnay"@, "proc-macro2"@, "da51f8d005cc5d8299c1872fad9bbe63b07c31c7"@,
            "58ab776b95a4c2865554badbb6629c50971a9118"@),
        ("aho-corasick"@, "BurntSushi"@, "aho-corasick"@, "8eb6f5a3e8348ad80f16d2174c3d387064a1cc2e"@,
            "d84a5073d5108fce1774b375105dfdb13fe4e81c"@),
        ("memchr"@, "BurntSushi"@, "memchr"@, "0ba6735559ae9c1cb7e6470a97834a95cc06fbbb"@,
            "886ca4ca4820297191c6e9f7b023dc356f31a4d1"@),
    ]
}

/// The known equivalences, with their release tags.
pub fn known_equivalence_table() -> (t: Vec<CrossCommitEquivalence>)
    ensures
        t@.map_values(|e: CrossCommitEquivalence| equivalence_row(e)) == known_equivalences(),
{
    let mut t = Vec::new();
    t.push(
        CrossCommitEquivalence {
            package: "syn",
            org: "dtolnay",
            repo: "syn",
            lockfile_sha: "0e4bc64fe1e07a574b6f3133927a27991fd40c2e",
            canonical_sha: "7bcb37cdb3399977658c8b52d2441d37e42e48f2",
            release_tag: Some("2.0.117"),
        },
    );
    t.push(
        CrossCommitEquivalence {
            package: "regex",
            org: "rust-lang",
            repo: "regex",
            lockfile_sha: "2b527599eb9eea0dcc288c704584f242f26a5c61",
            canonical_sha: "25a15e272b3ae5aee76b525902c2ab91b0d9e12e",
            release_tag: Some("rure-0.2.3"),
        },
    );
    t.push(
        CrossCommitEquivalence {
            package: "quote",
            org: "dtolnay",
            repo: "quote",
            lockfile_sha: "b01743f24cb5b19f96a3eac6bce0e7aee10f6199",
            canonical_sha: "842ffde933fdd76cd1681a288bed136d8b95a97a",
            release_tag: Some("1.0.38"),
        },
    );
    t.push(
        CrossCommitEquivalence {
            package: "proc-macro2",
            org: "dtolnay",
            repo: "proc-macro2",
            lockfile_sha: "da51f8d005cc5d8299c1872fad9bbe63b07c31c7",
            canonical_sha: "58ab776b95a4c2865554badbb6629c50971a9118",
            release_tag: Some("1.0.92"),
        },
    );
    t.push(
        CrossCommitEquivalence {
            package: "aho-corasick",
            org: "BurntSushi",
            repo: "aho-corasick",
            lockfile_sha: "8eb6f5a3e8348ad80f16d2174c3d387064a1cc2e",
            canonical_sha: "d84a5073d5108fce1774b375105dfdb13fe4e81c",
            release_tag: Some("1.1.3"),
        },
    );
    t.push(
        CrossCommitEquivalence {
            package: "memchr",
            org: "BurntSushi",
            repo: "memchr",
            lockfile_sha: "0ba6735559ae9c1cb7e6470a97834a95cc06fbbb",
            canonical_sha: "886ca4ca4820297191c6e9f7b023dc356f31a4d1",
            release_tag: Some("2.7.4"),
        },
    );
    assert(t@.map_values(|e: CrossCommitEquivalence| equivalence_row(e)) =~= known_equivalences());
    t
}

/// The parts of a call-target IRI.
#[derive(Debug, Clone, PartialEq, Eq)]
pub struct ParsedCallTarget {
    pub org: String,
    pub repo: String,
    pub commit_sha: String,
    pub rel_path: String,
    pub fragment: Option<String>,
}

/// Abstract view of a parsed call target.
pub type CallTargetView = (Seq<char>, Seq<char>, Seq<char>, Seq<char>, Option<Seq<char>>);

impl View for ParsedCallTarget {
    type V = CallTargetView;

    open spec fn view(&self) -> CallTargetView {
        (
            self.org@,
            self.repo@,
            self.commit_sha@,
            self.rel_path@,
            match self.fragment {
                Some(f) => Some(f@),
                None => None,
            },
        )
    }
}

/// The long prefix of repository IRIs.
pub open spec fn long_prefix() -> Seq<char> {
    "https://repolex.ai/r/"@
}

/// The compact prefix of repository IRIs.
pub open spec fn short_prefix() -> Seq<char> {
    "r:"@
}

/// The IRI with its long or compact repository prefix removed.
pub open spec fn strip_repo_prefix(clean: Seq<char>) -> Option<Seq<char>> {
    if text::starts_with_seq(clean, long_prefix()) {
        Some(clean.skip(long_prefix().len() as int))
    } else if text::starts_with_seq(clean, short_prefix()) {
        Some(clean.skip(short_prefix().len() as int))
    } else {
        None
    }
}

/// What `parse_call_target` answers for `{prefix}{org}/{repo}/commit/{sha}/{rel_path}#{fragment}`.
pub open spec fn parse_call_target_spec(iri: Seq<char>) -> Option<CallTargetView> {
    match strip_repo_prefix(text::trim_seq(iri)) {
        None => None,
        Some(w) => {
            let (path, fragment) = match text::split_once_seq(w, '#') {
                Some((p, f)) => (p, Some(f)),
                None => (w, None),
            };
            let segs = text::splitn_seq(path, 5, '/');
            if segs.len() < 5 || segs[2] != "commit"@ {
                None
            } else {
                Some((segs[0], segs[1], segs[3], segs[4], fragment))
            }
        },
    }
}

/// View of an optional parsed call target.
pub open spec fn opt_target_view(r: Option<ParsedCallTarget>) -> Option<CallTargetView> {
    match r {
        Some(p) => Some(p@),
        None => None,
    }
}

/// Parse a callTarget IRI into its constituent components:
/// format: https://repolex.ai/r/{org}/{repo}/commit/{sha}/{rel_path}#{fragment}
pub fn parse_call_target(iri: &str) -> (r: Option<ParsedCallTarget>)
    ensures
        opt_target_view(r) == parse_call_target_spec(iri@),
{
    let clean = text::trim_str(iri);
    let long = text::chars_of("https://repolex.ai/r/");
    let short = text::chars_of("r:");
    let without: Vec<char>;
    if text::matches_at(&clean, &long, 0) {
        without = text::slice_chars(&clean, long.len(), clean.len());
        assert(without@ =~= clean@.skip(long_prefix().len() as int));
    } else if text::matches_at(&clean, &short, 0) {
        without = text::slice_chars(&clean, short.len(), clean.len());
        assert(without@ =~= clean@.skip(short_prefix().len() as int));
    } else {
        return None;
    }
    let (path, fragment): (Vec<char>, Option<Vec<char>>) = match text::split_once_chars(
        &without,
        '#',
    ) {
        Some((p, f)) => (p, Some(f)),
        None => (text::slice_chars(&without, 0, without.len()), None),
    };
    assert(path@ == (match text::split_once_seq(without@, '#') {
        Some((p, f)) => p,
        None => without@,
    })) by {
        if text::split_once_seq(without@, '#') is None {
            assert(path@ =~= without@);
        }
    }
    let segs = text::splitn_chars(&path, 5, '/');
    let ghost sv = segs@.map_values(|x: Vec<char>| x@);
    assert(sv.len() == segs@.len());
    if segs.len() < 5 {
        return None;
    }
    let commit_word = text::chars_of("commit");
    assert(sv[2] == segs@[2]@);
    if !text::chars_eq(&segs[2], &commit_word) {
        return None;
    }
    assert(sv[0] == segs@[0]@ && sv[1] == segs@[1]@ && sv[3] == segs@[3]@ && sv[4] == segs@[4]@);
    let frag = match fragment {
        Some(f) => Some(text::string_from_chars(&f)),
        None => None,
    };
    Some(
        ParsedCallTarget {
            org: text::string_from_chars(&segs[0]),
            repo: text::string_from_chars(&segs[1]),
            commit_sha: text::string_from_chars(&segs[3]),
            rel_path: text::string_from_chars(&segs[4]),
            fragment: frag,
        },
    )
}

} // verus!

verus! {

/// A table row applies to a (trimmed, lower-cased) package name and a
/// lockfile commit.
pub open spec fn equivalence_applies(pkg: Seq<char>, lockfile_sha: Seq<char>, e: EquivalenceRow) -> bool {
    &&& e.3 == lockfile_sha
    &&& (pkg.len() == 0 || pkg == e.0 || pkg == e.2 || pkg == registry::slash_join(e.1, e.2))
}

/// What `resolve_canonical_sha` answers: the canonical commit of the first
/// applicable table row, else the backbone commit the package resolves to.
pub open spec fn resolve_canonical_spec(package_or_repo: Seq<char>, lockfile_sha: Seq<char>) -> Option<
    Seq<char>,
> {
    canonical_for(registry::normalized_query(package_or_repo), lockfile_sha)
}

/// The canonical commit for an already trimmed and lower-cased package name
/// `pkg`: that of the first applicable table row, else the backbone commit
/// `pkg` resolves to.
pub open spec fn canonical_for(pkg: Seq<char>, lockfile_sha: Seq<char>) -> Option<Seq<char>> {
    let ap = |e: EquivalenceRow| equivalence_applies(pkg, lockfile_sha, e);
    if text::any_where(known_equivalences(), ap) {
        Some(known_equivalences()[text::first_where(known_equivalences(), ap)].4)
    } else {
        match registry::resolve_spec(pkg, None) {
            Some(c) => Some(c.2),
            None => None,
        }
    }
}

/// View of an optional string.
pub open spec fn opt_str_view(s: Option<String>) -> Option<Seq<char>> {
    match s {
        Some(x) => Some(x@),
        None => None,
    }
}

/// Look up the canonical release commit SHA for a given repo or package name and lockfile SHA.
pub fn resolve_canonical_sha(package_or_repo: &str, lockfile_sha: &str) -> (r: Option<String>)
    ensures
        opt_str_view(r) == resolve_canonical_spec(package_or_repo@, lockfile_sha@),
{
    let pkg = registry::normalize_query(package_or_repo);
    let ps = text::string_from_chars(&pkg);
    canonical_sha_for(ps.as_str(), lockfile_sha)
}

/// The canonical commit for an already trimmed and lower-cased package
/// name, as [`canonical_for`] says.
#[verifier::loop_isolation(false)]
pub fn canonical_sha_for(package: &str, lockfile_sha: &str) -> (r: Option<String>)
    ensures
        opt_str_view(r) == canonical_for(package@, lockfile_sha@),
{
    let pkg = text::chars_of(package);
    let lock = text::chars_of(lockfile_sha);
    let ghost pv = pkg@;
    let ghost ap = |e: EquivalenceRow| equivalence_applies(pv, lockfile_sha@, e);
    let t = known_equivalence_table();
    let mut i: usize = 0;
    while i < t.len()
        invariant
            i <= t@.len(),
            forall|j: int| 0 <= j < i ==> !ap(#[trigger] known_equivalences()[j]),
        decreases t.len() - i,
    {
        let e = &t[i];
        assert(equivalence_row(t@[i as int]) == known_equivalences()[i as int]);
        let es = text::chars_of(e.lockfile_sha);
        let ep = text::chars_of(e.package);
        let er = text::chars_of(e.repo);
        let mut eor = text::chars_of(e.org);
        text::push_str(&mut eor, "/");
        text::push_str(&mut eor, e.repo);
        if text::chars_eq(&es, &lock) && (pkg.len() == 0 || text::chars_eq(&pkg, &ep)
            || text::chars_eq(&pkg, &er) || text::chars_eq(&pkg, &eor)) {
            proof {
                assert(ap(known_equivalences()[i as int]));
                assert(text::is_first_where(known_equivalences(), ap, i as int));
                text::lemma_first_where(known_equivalences(), ap, i as int);
            }
            return Some(e.canonical_sha.to_owned());
        }
        i = i + 1;
    }
    assert(!text::any_where(known_equivalences(), ap));
    let ps = text::string_from_chars(&pkg);
    match registry::resolve_repo(ps.as_str(), None) {
        Some(rr) => Some(rr.commit),
        None => None,
    }
}

/// The fragment suffix `#fragment`, or nothing.
pub open spec fn fragment_suffix(f: Option<Seq<char>>) -> Seq<char> {
    match f {
        Some(x) => "#"@ + x,
        None => Seq::empty(),
    }
}

/// The canonical IRI assembled from parsed parts and a new commit.
pub open spec fn rebuilt_iri(prefix: Seq<char>, p: CallTargetView, sha: Seq<char>) -> Seq<char> {
    prefix + p.0 + "/"@ + p.1 + "/commit/"@ + sha + "/"@ + p.3 + fragment_suffix(p.4)
}

/// What `canonicalize_call_target` answers: the IRI with a lockfile commit
/// replaced by its canonical commit (keeping the IRI's prefix style), with
/// the replaced commit; otherwise the IRI unchanged and nothing.
pub open spec fn canonicalize_spec(iri: Seq<char>) -> (Seq<char>, Option<Seq<char>>) {
    match parse_call_target_spec(iri) {
        None => (iri, None),
        Some(p) => match resolve_canonical_spec(p.1, p.2) {
            Some(c) => if c != p.2 {
                let prefix = if text::starts_with_seq(text::trim_seq(iri), short_prefix()) {
                    short_prefix()
                } else {
                    long_prefix()
                };
                (rebuilt_iri(prefix, p, c), Some(p.2))
            } else {
                (iri, None)
            },
            None => (iri, None),
        },
    }
}

/// Canonicalize a callTarget IRI by mapping any dependency lockfile commit SHA
/// to its canonical release commit SHA in the Repolex knowledge graph.
///
/// Returns (canonical_iri, Option<original_lockfile_sha>).
pub fn canonicalize_call_target(iri: &str) -> (r: (String, Option<String>))
    ensures
        (r.0@, opt_str_view(r.1)) == canonicalize_spec(iri@),
{
    let parsed = match parse_call_target(iri) {
        Some(p) => p,
        None => return (iri.to_owned(), None),
    };
    match resolve_canonical_sha(parsed.repo.as_str(), parsed.commit_sha.as_str()) {
        None => (iri.to_owned(), None),
        Some(canonical_sha) => {
            let cv = text::chars_of(canonical_sha.as_str());
            let sv = text::chars_of(parsed.commit_sha.as_str());
            if text::chars_eq(&cv, &sv) {
                return (iri.to_owned(), None);
            }
            let trimmed = text::trim_str(iri);
            let short = text::chars_of("r:");
            let mut out: Vec<char> = Vec::new();
            if text::matches_at(&trimmed, &short, 0) {
                text::push_str(&mut out, "r:");
            } else {
                text::push_str(&mut out, "https://repolex.ai/r/");
            }
            text::push_str(&mut out, parsed.org.as_str());
            text::push_str(&mut out, "/");
            text::push_str(&mut out, parsed.repo.as_str());
            text::push_str(&mut out, "/commit/");
            text::push_str(&mut out, canonical_sha.as_str());
            text::push_str(&mut out, "/");
            text::push_str(&mut out, parsed.rel_path.as_str());
            match &parsed.fragment {
                Some(f) => {
                    text::push_str(&mut out, "#");
                    text::push_str(&mut out, f.as_str());
                },
                None => {},
            }
            let ghost pre = if text::starts_with_seq(text::trim_seq(iri@), short_prefix()) {
                short_prefix()
            } else {
                long_prefix()
            };
            assert(out@ =~= rebuilt_iri(pre, parsed@, canonical_sha@));
            (text::string_from_chars(&out), Some(parsed.commit_sha))
        },
    }
}

/// The `BIND` that takes the file path out of a call target.
pub open spec fn file_bridge_bind_spec(call_target_var: Seq<char>, target_file_var: Seq<char>) -> Seq<char> {
    "BIND(REPLACE(REPLACE(STR("@ + call_target_var + "), '^.*commit/[^/]+/', ''), '#.*$', '') AS "@
        + target_file_var + ")"@
}

/// Generate SPARQL query snippets for bridging cross-commit call edges:
/// Extracts the relative file path from callTarget to join with the callee's resolutionSourceFile.
pub fn generate_file_bridge_bind(call_target_var: &str, target_file_var: &str) -> (s: String)
    ensures
        s@ == file_bridge_bind_spec(call_target_var@, target_file_var@),
{
    let mut v: Vec<char> = Vec::new();
    text::push_str(&mut v, "BIND(REPLACE(REPLACE(STR(");
    text::push_str(&mut v, call_target_var);
    text::push_str(&mut v, "), '^.*commit/[^/]+/', ''), '#.*$', '') AS ");
    text::push_str(&mut v, target_file_var);
    text::push_str(&mut v, ")");
    text::string_from_chars(&v)
}

/// The parts of a parsed call target: the organisation and repository hold
/// no `/` or `#`, the file no `#`, and the part that ends the IRI does not
/// end with whitespace.
proof fn lemma_parsed_parts(iri: Seq<char>, p: CallTargetView)
    requires
        parse_call_target_spec(iri) == Some(p),
    ensures
        !text::has_char(p.0, '/') && !text::has_char(p.0, '#'),
        !text::has_char(p.1, '/') && !text::has_char(p.1, '#'),
        !text::has_char(p.3, '#'),
        p.4 matches Some(f) ==> (f.len() > 0 ==> !text::is_white(f.last())),
        p.4 is None ==> (p.3.len() > 0 ==> !text::is_white(p.3.last())),
{
    let t = text::trim_seq(iri);
    text::lemma_trim_end_last(text::trim_start_seq(iri));
    let k: int = if text::starts_with_seq(t, long_prefix()) {
        long_prefix().len() as int
    } else {
        short_prefix().len() as int
    };
    let w = t.skip(k);
    assert(strip_repo_prefix(t) == Some(w));
    let sp = text::split_once_seq(w, '#');
    let path = match sp {
        Some((a, f)) => a,
        None => w,
    };
    let frag: Option<Seq<char>> = match sp {
        Some((a, f)) => Some(f),
        None => None,
    };
    if text::has_char(w, '#') {
        let i0 = choose|i: int| 0 <= i < w.len() && w[i] == '#';
        text::lemma_exists_first_index(w, '#', i0);
        let i = text::first_index_of(w, '#');
        assert(text::is_first_index(w, '#', i));
        assert(path == w.take(i));
        assert(!text::has_char(path, '#')) by {
            if text::has_char(path, '#') {
                let j = choose|j: int| 0 <= j < path.len() && path[j] == '#';
                assert(w[j] == '#');
            }
        }
        assert(frag == Some(w.skip(i + 1)));
        if w.skip(i + 1).len() > 0 {
            assert(w.skip(i + 1).last() == t.last());
        }
    } else {
        assert(path == w);
    }
    let segs = text::splitn_seq(path, 5, '/');
    text::lemma_splitn_parts(path, 5, '/', '#');
    assert(segs.len() == 5);
    assert(p == (segs[0], segs[1], segs[3], segs[4], frag));
    assert(!text::has_char(segs[0], '/') && !text::has_char(segs[1], '/'));
    let j = choose|j: int| 0 <= j <= path.len() && segs.last() == #[trigger] path.skip(j);
    if frag is None && p.3.len() > 0 {
        assert(p.3 == path.skip(j));
        assert(p.3.last() == t.last());
    }
}

/// The path of a rebuilt call target, before its fragment.
pub open spec fn rebuilt_path(p: CallTargetView, sha: Seq<char>) -> Seq<char> {
    p.0 + "/"@ + p.1 + "/commit/"@ + sha + "/"@ + p.3
}

/// A rebuilt call target is its own trim, and its prefix comes off to leave
/// the path and the fragment.
proof fn lemma_rebuilt_prefix(p: CallTargetView, short: bool, sha: Seq<char>)
    requires
        p.4 matches Some(f) ==> (f.len() > 0 ==> !text::is_white(f.last())),
        p.4 is None ==> (p.3.len() > 0 ==> !text::is_white(p.3.last())),
    ensures
        ({
            let r = rebuilt_iri(if short { short_prefix() } else { long_prefix() }, p, sha);
            &&& text::trim_seq(r) == r
            &&& strip_repo_prefix(r) == Some(rebuilt_path(p, sha) + fragment_suffix(p.4))
        }),
{
    reveal_strlit("https://repolex.ai/r/");
    reveal_strlit("r:");
    reveal_strlit("/");
    reveal_strlit("#");
    let prefix = if short { short_prefix() } else { long_prefix() };
    let path2 = rebuilt_path(p, sha);
    let w2 = path2 + fragment_suffix(p.4);
    let r = rebuilt_iri(prefix, p, sha);
    assert(r =~= prefix + w2);
    assert(r[0] == prefix[0]);
    if p.4 is Some {
        let f = p.4->0;
        assert(w2 =~= path2 + seq!['#'] + f);
        if f.len() > 0 {
            assert(r.last() == f.last());
        } else {
            assert(r.last() == '#');
        }
    } else {
        assert(w2 =~= path2);
        if p.3.len() > 0 {
            assert(r.last() == p.3.last());
        } else {
            assert(r.last() == '/');
        }
    }
    text::lemma_trim_unchanged(r);
    if short {
        if r.len() >= long_prefix().len() {
            assert(r.subrange(0, long_prefix().len() as int)[0] != long_prefix()[0]);
        }
        assert(!text::starts_with_seq(r, long_prefix()));
        assert(r.subrange(0, 2) =~= short_prefix());
    } else {
        assert(r.subrange(0, long_prefix().len() as int) =~= long_prefix());
    }
    assert(r.skip(prefix.len() as int) =~= w2);
}

/// The path and fragment of a rebuilt call target split back into its
/// parts.
proof fn lemma_rebuilt_split(p: CallTargetView, sha: Seq<char>)
    requires
        !text::has_char(p.0, '/') && !text::has_char(p.0, '#'),
        !text::has_char(p.1, '/') && !text::has_char(p.1, '#'),
        !text::has_char(p.3, '#'),
        !text::has_char(sha, '/'),
        !text::has_char(sha, '#'),
    ensures
        ({
            let path2 = rebuilt_path(p, sha);
            let w2 = path2 + fragment_suffix(p.4);
            &&& text::split_once_seq(w2, '#') == match p.4 {
                Some(f) => Some((path2, f)),
                None => None::<(Seq<char>, Seq<char>)>,
            }
            &&& p.4 is None ==> w2 == path2
            &&& text::splitn_seq(path2, 5, '/') == seq![p.0, p.1, "commit"@, sha, p.3]
        }),
{
    reveal_strlit("/");
    reveal_strlit("/commit/");
    reveal_strlit("commit");
    reveal_strlit("#");
    let slash = seq!['/'];
    let commit_word = "commit"@;
    let path2 = rebuilt_path(p, sha);
    let w2 = path2 + fragment_suffix(p.4);
    text::lemma_has_char_concat(p.0, "/"@, '#');
    text::lemma_has_char_concat(p.0 + "/"@, p.1, '#');
    text::lemma_has_char_concat(p.0 + "/"@ + p.1, "/commit/"@, '#');
    text::lemma_has_char_concat(p.0 + "/"@ + p.1 + "/commit/"@, sha, '#');
    text::lemma_has_char_concat(p.0 + "/"@ + p.1 + "/commit/"@ + sha, "/"@, '#');
    text::lemma_has_char_concat(p.0 + "/"@ + p.1 + "/commit/"@ + sha + "/"@, p.3, '#');
    assert(!text::has_char(path2, '#'));
    if p.4 is Some {
        let f = p.4->0;
        assert(w2 =~= path2 + seq!['#'] + f);
        text::lemma_split_once_join(path2, '#', f);
    } else {
        assert(w2 =~= path2);
    }
    let rest3 = sha + slash + p.3;
    let rest2 = commit_word + slash + rest3;
    let rest1 = p.1 + slash + rest2;
    assert(path2 =~= p.0 + slash + rest1);
    assert(!text::has_char(commit_word, '/'));
    text::lemma_splitn_join(p.0, '/', rest1, 5);
    text::lemma_splitn_join(p.1, '/', rest2, 4);
    text::lemma_splitn_join(commit_word, '/', rest3, 3);
    text::lemma_splitn_join(sha, '/', p.3, 2);
    assert(text::splitn_seq(p.3, 1, '/') == seq![p.3]);
    assert(text::splitn_seq(path2, 5, '/') =~= seq![p.0, p.1, commit_word, sha, p.3]);
}

/// An IRI that `canonicalize_call_target` builds is again a call target:
/// rebuilding a parsed call target with either prefix and a commit free of
/// `/` and `#` gives an IRI that parses to the same organisation,
/// repository, file and fragment, with that commit.
pub proof fn law_rebuilt_iri_reparses(iri: Seq<char>, p: CallTargetView, short: bool, sha: Seq<char>)
    requires
        parse_call_target_spec(iri) == Some(p),
        !text::has_char(sha, '/'),
        !text::has_char(sha, '#'),
    ensures
        parse_call_target_spec(rebuilt_iri(if short { short_prefix() } else { long_prefix() }, p, sha))
            == Some((p.0, p.1, sha, p.3, p.4)),
{
    reveal_strlit("commit");
    lemma_parsed_parts(iri, p);
    lemma_rebuilt_prefix(p, short, sha);
    lemma_rebuilt_split(p, sha);
}

/// The compact `r:` prefix and the full `https://repolex.ai/r/` prefix are
/// interchangeable: a call target written with either parses the same.
pub proof fn law_prefixes_interchangeable(s: Seq<char>)
    ensures
        parse_call_target_spec(short_prefix() + s) == parse_call_target_spec(long_prefix() + s),
{
    reveal_strlit("https://repolex.ai/r/");
    reveal_strlit("r:");
    text::lemma_trim_after_prefix(short_prefix(), s);
    text::lemma_trim_after_prefix(long_prefix(), s);
    let ts = short_prefix() + text::trim_end_seq(s);
    let tl = long_prefix() + text::trim_end_seq(s);
    if ts.len() >= long_prefix().len() {
        assert(ts.subrange(0, long_prefix().len() as int)[0] != long_prefix()[0]);
    }
    assert(!text::starts_with_seq(ts, long_prefix()));
    assert(ts.subrange(0, 2) =~= short_prefix());
    assert(ts.skip(2) =~= text::trim_end_seq(s));
    assert(tl.subrange(0, long_prefix().len() as int) =~= long_prefix());
    assert(tl.skip(long_prefix().len() as int) =~= text::trim_end_seq(s));
    assert(strip_repo_prefix(ts) == strip_repo_prefix(tl));
}

/// The prefix a call target is written with: the compact one when its
/// trimmed text starts with `r:`, the full one otherwise.
pub open spec fn prefix_of(iri: Seq<char>) -> Seq<char> {
    if text::starts_with_seq(text::trim_seq(iri), short_prefix()) {
        short_prefix()
    } else {
        long_prefix()
    }
}

/// The trimmed IRI of a parsed call target is its prefix followed by the
/// path and fragment that the parse split.
proof fn lemma_trimmed_parts(iri: Seq<char>, p: CallTargetView)
    requires
        parse_call_target_spec(iri) == Some(p),
    ensures
        ({
            let t = text::trim_seq(iri);
            let w = strip_repo_prefix(t)->0;
            let path = match text::split_once_seq(w, '#') {
                Some((a, f)) => a,
                None => w,
            };
            &&& strip_repo_prefix(t) is Some
            &&& t == prefix_of(iri) + w
            &&& w == path + fragment_suffix(p.4)
        }),
{
    reveal_strlit("https://repolex.ai/r/");
    reveal_strlit("r:");
    reveal_strlit("#");
    let t = text::trim_seq(iri);
    let k: int = if text::starts_with_seq(t, long_prefix()) {
        long_prefix().len() as int
    } else {
        short_prefix().len() as int
    };
    let w = t.skip(k);
    assert(strip_repo_prefix(t) == Some(w));
    if text::starts_with_seq(t, long_prefix()) {
        assert(t.subrange(0, long_prefix().len() as int)[0] == t[0]);
        assert(t[0] == 'h');
        assert(!text::starts_with_seq(t, short_prefix())) by {
            if text::starts_with_seq(t, short_prefix()) {
                assert(t.subrange(0, 2)[0] == t[0]);
            }
        }
        assert(t =~= long_prefix() + w);
    } else {
        assert(t =~= short_prefix() + w);
    }
    let sp = text::split_once_seq(w, '#');
    let path = match sp {
        Some((a, f)) => a,
        None => w,
    };
    if text::has_char(w, '#') {
        let i0 = choose|i: int| 0 <= i < w.len() && w[i] == '#';
        text::lemma_exists_first_index(w, '#', i0);
        let i = text::first_index_of(w, '#');
        assert(text::is_first_index(w, '#', i));
        assert(w =~= path + fragment_suffix(p.4));
    } else {
        assert(w =~= path + fragment_suffix(p.4));
    }
}

/// The path of a parsed call target is its parts joined as the IRI writes
/// them.
proof fn lemma_path_parts(path: Seq<char>, p: CallTargetView)
    requires
        text::splitn_seq(path, 5, '/').len() >= 5,
        text::splitn_seq(path, 5, '/')[2] == "commit"@,
        ({
            let segs = text::splitn_seq(path, 5, '/');
            (segs[0], segs[1], segs[3], segs[4]) == (p.0, p.1, p.2, p.3)
        }),
    ensures
        path == rebuilt_path(p, p.2),
{
    reveal_strlit("/");
    reveal_strlit("/commit/");
    reveal_strlit("commit");
    let segs = text::splitn_seq(path, 5, '/');
    text::lemma_splitn_parts(path, 5, '/', '/');
    text::lemma_splitn_joined(path, 5, '/');
    text::lemma_join_five(segs, '/');
    assert(path =~= rebuilt_path(p, p.2));
}

/// Rebuilding a parsed call target from its parts, with the prefix it was
/// written with and its own commit, gives back the trimmed IRI.
pub proof fn law_call_target_round_trip(iri: Seq<char>, p: CallTargetView)
    requires
        parse_call_target_spec(iri) == Some(p),
    ensures
        rebuilt_iri(prefix_of(iri), p, p.2) == text::trim_seq(iri),
{
    lemma_trimmed_parts(iri, p);
    let t = text::trim_seq(iri);
    let w = strip_repo_prefix(t)->0;
    let path = match text::split_once_seq(w, '#') {
        Some((a, f)) => a,
        None => w,
    };
    lemma_path_parts(path, p);
    assert(rebuilt_iri(prefix_of(iri), p, p.2) =~= prefix_of(iri) + (rebuilt_path(p, p.2)
        + fragment_suffix(p.4)));
}

/// Every commit of the equivalence table, lockfile and canonical alike, is
/// forty lower-case hexadecimal digits, so it holds no `/` and no `#`.
pub proof fn law_equivalence_commits_are_hex()
    ensures
        forall|k: int|
            0 <= k < known_equivalences().len() ==> text::is_hex_seq(#[trigger] known_equivalences()[k].3)
                && known_equivalences()[k].3.len() == 40 && text::is_hex_seq(known_equivalences()[k].4)
                && known_equivalences()[k].4.len() == 40,
{
    assert forall|k: int| 0 <= k < known_equivalences().len() implies text::is_hex_seq(
        #[trigger] known_equivalences()[k].3,
    ) && known_equivalences()[k].3.len() == 40 && text::is_hex_seq(known_equivalences()[k].4)
        && known_equivalences()[k].4.len() == 40 by {
        if k == 0 {
            reveal_strlit("0e4bc64fe1e07a574b6f3133927a27991fd40c2e");
            reveal_strlit("7bcb37cdb3399977658c8b52d2441d37e42e48f2");
        } else if k == 1 {
            reveal_strlit("2b527599eb9eea0dcc288c704584f242f26a5c61");
            reveal_strlit("25a15e272b3ae5aee76b525902c2ab91b0d9e12e");
        } else if k == 2 {
            reveal_strlit("b01743f24cb5b19f96a3eac6bce0e7aee10f6199");
            reveal_strlit("842ffde933fdd76cd1681a288bed136d8b95a97a");
        } else if k == 3 {
            reveal_strlit("da51f8d005cc5d8299c1872fad9bbe63b07c31c7");
            reveal_strlit("58ab776b95a4c2865554badbb6629c50971a9118");
        } else if k == 4 {
            reveal_strlit("8eb6f5a3e8348ad80f16d2174c3d387064a1cc2e");
            reveal_strlit("d84a5073d5108fce1774b375105dfdb13fe4e81c");
        } else if k == 5 {
            reveal_strlit("0ba6735559ae9c1cb7e6470a97834a95cc06fbbb");
            reveal_strlit("886ca4ca4820297191c6e9f7b023dc356f31a4d1");
        }
    }
}

proof fn lemma_lockfile_apart_0()
    ensures
        forall|k: int| 0 <= k < registry::backbone().len() ==> #[trigger] registry::backbone()[k].3 != known_equivalences()[0].3,
        forall|g: int| 0 <= g < known_equivalences().len() ==> #[trigger] known_equivalences()[g].4 != known_equivalences()[0].3,
{
    reveal_strlit("0e4bc64fe1e07a574b6f3133927a27991fd40c2e");
    assert forall|k: int| 0 <= k < registry::backbone().len() implies #[trigger] registry::backbone()[k].3 != known_equivalences()[0].3 by {
        if k == 0 {
            reveal_strlit("550a8e5a1a7b121bd970eff3e7575acd158f6bb8");
            assert(registry::backbone()[k].3[0] != known_equivalences()[0].3[0]);
        } else if k == 1 {
            reveal_strlit("d79791e26e44dbd3667f05caa6a97fcd12b3d146");
            assert(registry::backbone()[k].3[0] != known_equivalences()[0].3[0]);
        } else if k == 2 {
            reveal_strlit("5723cf486522d47aad26390cf5b02e95654ae225");
            assert(registry::backbone()[k].3[0] != known_equivalences()[0].3[0]);
        } else if k == 3 {
            reveal_strlit("5723cf486522d47aad26390cf5b02e95654ae225");
            assert(registry::backbone()[k].3[0] != known_equivalences()[0].3[0]);
        } else if k == 4 {
            reveal_strlit("25a15e272b3ae5aee76b525902c2ab91b0d9e12e");
            assert(registry::backbone()[k].3[0] != known_equivalences()[0].3[0]);
        } else if k == 5 {
            reveal_strlit("d84a5073d5108fce1774b375105dfdb13fe4e81c");
            assert(registry::backbone()[k].3[0] != known_equivalences()[0].3[0]);
        } else if k == 6 {
            reveal_strlit("886ca4ca4820297191c6e9f7b023dc356f31a4d1");
            assert(registry::backbone()[k].3[0] != known_equivalences()[0].3[0]);
        } else if k == 7 {
            reveal_strlit("4f26be4d450910916ea11533b2efc52b9a6483bc");
            assert(registry::backbone()[k].3[0] != known_equivalences()[0].3[0]);
        } else if k == 8 {
            reveal_strlit("c59208c86fded335cd85e388030ad59347b0e5ae");
            assert(registry::backbone()[k].3[0] != known_equivalences()[0].3[0]);
        } else if k == 9 {
            reveal_strlit("417dccdeff249e0c011327de7d92e0d6fbe7cc43");
            assert(registry::backbone()[k].3[0] != known_equivalences()[0].3[0]);
        } else if k == 10 {
            reveal_strlit("7bcb37cdb3399977658c8b52d2441d37e42e48f2");
            assert(registry::backbone()[k].3[0] != known_equivalences()[0].3[0]);
        } else if k == 11 {
            reveal_strlit("842ffde933fdd76cd1681a288bed136d8b95a97a");
            assert(registry::backbone()[k].3[0] != known_equivalences()[0].3[0]);
        } else if k == 12 {
            reveal_strlit("58ab776b95a4c2865554badbb6629c50971a9118");
            assert(registry::backbone()[k].3[0] != known_equivalences()[0].3[0]);
        } else if k == 13 {
            reveal_strlit("5c657b32522023a9f7ef883fb08582fd8e656b1a");
            assert(registry::backbone()[k].3[0] != known_equivalences()[0].3[0]);
        } else if k == 14 {
            reveal_strlit("7fc3b4c30c94f73a96ebd1553f2b090d928fc3a8");
            assert(registry::backbone()[k].3[0] != known_equivalences()[0].3[0]);
        } else if k == 15 {
            reveal_strlit("4f6dbfac79647d032b0997b5ab73022340c6dab7");
            assert(registry::backbone()[k].3[0] != known_equivalences()[0].3[0]);
        } else if k == 16 {
            reveal_strlit("239dd83a4ced08e514d2c38942aab99791119f0d");
            assert(registry::backbone()[k].3[0] != known_equivalences()[0].3[0]);
        } else if k == 17 {
            reveal_strlit("f3417ae86f015b9d0d8789b8fa11e64f9fec0adf");
            assert(registry::backbone()[k].3[0] != known_equivalences()[0].3[0]);
        } else if k == 18 {
            reveal_strlit("b863968301f0e889fa04afc590d7e2c9a4100dc3");
            assert(registry::backbone()[k].3[0] != known_equivalences()[0].3[0]);
        } else if k == 19 {
            reveal_strlit("b863968301f0e889fa04afc590d7e2c9a4100dc3");
            assert(registry::backbone()[k].3[0] != known_equivalences()[0].3[0]);
        } else if k == 20 {
            reveal_strlit("93c81772305a102f1ec846bd12713dd7bf1e3f04");
            assert(registry::backbone()[k].3[0] != known_equivalences()[0].3[0]);
        } else if k == 21 {
            reveal_strlit("93c81772305a102f1ec846bd12713dd7bf1e3f04");
            assert(registry::backbone()[k].3[0] != known_equivalences()[0].3[0]);
        } else if k == 22 {
            reveal_strlit("86d92e8d284b0acd451e7b6db6bdef41ae9c9db4");
            assert(registry::backbone()[k].3[0] != known_equivalences()[0].3[0]);
        } else if k == 23 {
            reveal_strlit("a150f65ce810793293d5c9dd815f4510eb6d8e4c");
            assert(registry::backbone()[k].3[0] != known_equivalences()[0].3[0]);
        } else if k == 24 {
            reveal_strlit("b9625d83b524f7a8306883484f29a746eefc1bab");
            assert(registry::backbone()[k].3[0] != known_equivalences()[0].3[0]);
        } else if k == 25 {
            reveal_strlit("0d6c7d5469baa09e2fb127ee3758a79b3271a4f0");
            assert(registry::backbone()[k].3[1] != known_equivalences()[0].3[1]);
        } else if k == 26 {
            reveal_strlit("ad83b63824385a4e5758d263db707549bbe59ba7");
            assert(registry::backbone()[k].3[0] != known_equivalences()[0].3[0]);
        } else if k == 27 {
            reveal_strlit("995b59f66677d44767ce9faac6957e5543617ff9");
            assert(registry::backbone()[k].3[0] != known_equivalences()[0].3[0]);
        } else if k == 28 {
            reveal_strlit("4dec426aa2a6cbabb1b064319ba7c272d594a688");
            assert(registry::backbone()[k].3[0] != known_equivalences()[0].3[0]);
        }
    }
    assert forall|g: int| 0 <= g < known_equivalences().len() implies #[trigger] known_equivalences()[g].4 != known_equivalences()[0].3 by {
        if g == 0 {
            reveal_strlit("7bcb37cdb3399977658c8b52d2441d37e42e48f2");
            assert(known_equivalences()[g].4[0] != known_equivalences()[0].3[0]);
        } else if g == 1 {
            reveal_strlit("25a15e272b3ae5aee76b525902c2ab91b0d9e12e");
            assert(known_equivalences()[g].4[0] != known_equivalences()[0].3[0]);
        } else if g == 2 {
            reveal_strlit("842ffde933fdd76cd1681a288bed136d8b95a97a");
            assert(known_equivalences()[g].4[0] != known_equivalences()[0].3[0]);
        } else if g == 3 {
            reveal_strlit("58ab776b95a4c2865554badbb6629c50971a9118");
            assert(known_equivalences()[g].4[0] != known_equivalences()[0].3[0]);
        } else if g == 4 {
            reveal_strlit("d84a5073d5108fce1774b375105dfdb13fe4e81c");
            assert(known_equivalences()[g].4[0] != known_equivalences()[0].3[0]);
        } else if g == 5 {
            reveal_strlit("886ca4ca4820297191c6e9f7b023dc356f31a4d1");
            assert(known_equivalences()[g].4[0] != known_equivalences()[0].3[0]);
        }
    }
}

proof fn lemma_lockfile_apart_1()
    ensures
        forall|k: int| 0 <= k < registry::backbone().len() ==> #[trigger] registry::backbone()[k].3 != known_equivalences()[1].3,
        forall|g: int| 0 <= g < known_equivalences().len() ==> #[trigger] known_equivalences()[g].4 != known_equivalences()[1].3,
{
    reveal_strlit("2b527599eb9eea0dcc288c704584f242f26a5c61");
    assert forall|k: int| 0 <= k < registry::backbone().len() implies #[trigger] registry::backbone()[k].3 != known_equivalences()[1].3 by {
        if k == 0 {
            reveal_strlit("550a8e5a1a7b121bd970eff3e7575acd158f6bb8");
            assert(registry::backbone()[k].3[0] != known_equivalences()[1].3[0]);
        } else if k == 1 {
            reveal_strlit("d79791e26e44dbd3667f05caa6a97fcd12b3d146");
            assert(registry::backbone()[k].3[0] != known_equivalences()[1].3[0]);
        } else if k == 2 {
            reveal_strlit("5723cf486522d47aad26390cf5b02e95654ae225");
            assert(registry::backbone()[k].3[0] != known_equivalences()[1].3[0]);
        } else if k == 3 {
            reveal_strlit("5723cf486522d47aad26390cf5b02e95654ae225");
            assert(registry::backbone()[k].3[0] != known_equivalences()[1].3[0]);
        } else if k == 4 {
            reveal_strlit("25a15e272b3ae5aee76b525902c2ab91b0d9e12e");
            assert(registry::backbone()[k].3[1] != known_equivalences()[1].3[1]);
        } else if k == 5 {
            reveal_strlit("d84a5073d5108fce1774b375105dfdb13fe4e81c");
            assert(registry::backbone()[k].3[0] != known_equivalences()[1].3[0]);
        } else if k == 6 {
            reveal_strlit("886ca4ca4820297191c6e9f7b023dc356f31a4d1");
            assert(registry::backbone()[k].3[0] != known_equivalences()[1].3[0]);
        } else if k == 7 {
            reveal_strlit("4f26be4d450910916ea11533b2efc52b9a6483bc");
            assert(registry::backbone()[k].3[0] != known_equivalences()[1].3[0]);
        } else if k == 8 {
            reveal_strlit("c59208c86fded335cd85e388030ad59347b0e5ae");
            assert(registry::backbone()[k].3[0] != known_equivalences()[1].3[0]);
        } else if k == 9 {
            reveal_strlit("417dccdeff249e0c011327de7d92e0d6fbe7cc43");
            assert(registry::backbone()[k].3[0] != known_equivalences()[1].3[0]);
        } else if k == 10 {
            reveal_strlit("7bcb37cdb3399977658c8b52d2441d37e42e48f2");
            assert(registry::backbone()[k].3[0] != known_equivalences()[1].3[0]);
        } else if k == 11 {
            reveal_strlit("842ffde933fdd76cd1681a288bed136d8b95a97a");
            assert(registry::backbone()[k].3[0] != known_equivalences()[1].3[0]);
        } else if k == 12 {
            reveal_strlit("58ab776b95a4c2865554badbb6629c50971a9118");
            assert(registry::backbone()[k].3[0] != known_equivalences()[1].3[0]);
        } else if k == 13 {
            reveal_strlit("5c657b32522023a9f7ef883fb08582fd8e656b1a");
            assert(registry::backbone()[k].3[0] != known_equivalences()[1].3[0]);
        } else if k == 14 {
            reveal_strlit("7fc3b4c30c94f73a96ebd1553f2b090d928fc3a8");
            assert(registry::backbone()[k].3[0] != known_equivalences()[1].3[0]);
        } else if k == 15 {
            reveal_strlit("4f6dbfac79647d032b0997b5ab73022340c6dab7");
            assert(registry::backbone()[k].3[0] != known_equivalences()[1].3[0]);
        } else if k == 16 {
            reveal_strlit("239dd83a4ced08e514d2c38942aab99791119f0d");
            assert(registry::backbone()[k].3[1] != known_equivalences()[1].3[1]);
        } else if k == 17 {
            reveal_strlit("f3417ae86f015b9d0d8789b8fa11e64f9fec0adf");
            assert(registry::backbone()[k].3[0] != known_equivalences()[1].3[0]);
        } else if k == 18 {
            reveal_strlit("b863968301f0e889fa04afc590d7e2c9a4100dc3");
            assert(registry::backbone()[k].3[0] != known_equivalences()[1].3[0]);
        } else if k == 19 {
            reveal_strlit("b863968301f0e889fa04afc590d7e2c9a4100dc3");
            assert(registry::backbone()[k].3[0] != known_equivalences()[1].3[0]);
        } else if k == 20 {
            reveal_strlit("93c81772305a102f1ec846bd12713dd7bf1e3f04");
            assert(registry::backbone()[k].3[0] != known_equivalences()[1].3[0]);
        } else if k == 21 {
            reveal_strlit("93c81772305a102f1ec846bd12713dd7bf1e3f04");
            assert(registry::backbone()[k].3[0] != known_equivalences()[1].3[0]);
        } else if k == 22 {
            reveal_strlit("86d92e8d284b0acd451e7b6db6bdef41ae9c9db4");
            assert(registry::backbone()[k].3[0] != known_equivalences()[1].3[0]);
        } else if k == 23 {
            reveal_strlit("a150f65ce810793293d5c9dd815f4510eb6d8e4c");
            assert(registry::backbone()[k].3[0] != known_equivalences()[1].3[0]);
        } else if k == 24 {
            reveal_strlit("b9625d83b524f7a8306883484f29a746eefc1bab");
            assert(registry::backbone()[k].3[0] != known_equivalences()[1].3[0]);
        } else if k == 25 {
            reveal_strlit("0d6c7d5469baa09e2fb127ee3758a79b3271a4f0");
            assert(registry::backbone()[k].3[0] != known_equivalences()[1].3[0]);
        } else if k == 26 {
            reveal_strlit("ad83b63824385a4e5758d263db707549bbe59ba7");
            assert(registry::backbone()[k].3[0] != known_equivalences()[1].3[0]);
        } else if k == 27 {
            reveal_strlit("995b59f66677d44767ce9faac6957e5543617ff9");
            assert(registry::backbone()[k].3[0] != known_equivalences()[1].3[0]);
        } else if k == 28 {
            reveal_strlit("4dec426aa2a6cbabb1b064319ba7c272d594a688");
            assert(registry::backbone()[k].3[0] != known_equivalences()[1].3[0]);
        }
    }
    assert forall|g: int| 0 <= g < known_equivalences().len() implies #[trigger] known_equivalences()[g].4 != known_equivalences()[1].3 by {
        if g == 0 {
            reveal_strlit("7bcb37cdb3399977658c8b52d2441d37e42e48f2");
            assert(known_equivalences()[g].4[0] != known_equivalences()[1].3[0]);
        } else if g == 1 {
            reveal_strlit("25a15e272b3ae5aee76b525902c2ab91b0d9e12e");
            assert(known_equivalences()[g].4[1] != known_equivalences()[1].3[1]);
        } else if g == 2 {
            reveal_strlit("842ffde933fdd76cd1681a288bed136d8b95a97a");
            assert(known_equivalences()[g].4[0] != known_equivalences()[1].3[0]);
        } else if g == 3 {
            reveal_strlit("58ab776b95a4c2865554badbb6629c50971a9118");
            assert(known_equivalences()[g].4[0] != known_equivalences()[1].3[0]);
        } else if g == 4 {
            reveal_strlit("d84a5073d5108fce1774b375105dfdb13fe4e81c");
            assert(known_equivalences()[g].4[0] != known_equivalences()[1].3[0]);
        } else if g == 5 {
            reveal_strlit("886ca4ca4820297191c6e9f7b023dc356f31a4d1");
            assert(known_equivalences()[g].4[0] != known_equivalences()[1].3[0]);
        }
    }
}

proof fn lemma_lockfile_apart_2()
    ensures
        forall|k: int| 0 <= k < registry::backbone().len() ==> #[trigger] registry::backbone()[k].3 != known_equivalences()[2].3,
        forall|g: int| 0 <= g < known_equivalences().len() ==> #[trigger] known_equivalences()[g].4 != known_equivalences()[2].3,
{
    reveal_strlit("b01743f24cb5b19f96a3eac6bce0e7aee10f6199");
    assert forall|k: int| 0 <= k < registry::backbone().len() implies #[trigger] registry::backbone()[k].3 != known_equivalences()[2].3 by {
        if k == 0 {
            reveal_strlit("550a8e5a1a7b121bd970eff3e7575acd158f6bb8");
            assert(registry::backbone()[k].3[0] != known_equivalences()[2].3[0]);
        } else if k == 1 {
            reveal_strlit("d79791e26e44dbd3667f05caa6a97fcd12b3d146");
            assert(registry::backbone()[k].3[0] != known_equivalences()[2].3[0]);
        } else if k == 2 {
            reveal_strlit("5723cf486522d47aad26390cf5b02e95654ae225");
            assert(registry::backbone()[k].3[0] != known_equivalences()[2].3[0]);
        } else if k == 3 {
            reveal_strlit("5723cf486522d47aad26390cf5b02e95654ae225");
            assert(registry::backbone()[k].3[0] != known_equivalences()[2].3[0]);
        } else if k == 4 {
            reveal_strlit("25a15e272b3ae5aee76b525902c2ab91b0d9e12e");
            assert(registry::backbone()[k].3[0] != known_equivalences()[2].3[0]);
        } else if k == 5 {
            reveal_strlit("d84a5073d5108fce1774b375105dfdb13fe4e81c");
            assert(registry::backbone()[k].3[0] != known_equivalences()[2].3[0]);
        } else if k == 6 {
            reveal_strlit("886ca4ca4820297191c6e9f7b023dc356f31a4d1");
            assert(registry::backbone()[k].3[0] != known_equivalences()[2].3[0]);
        } else if k == 7 {
            reveal_strlit("4f26be4d450910916ea11533b2efc52b9a6483bc");
            assert(registry::backbone()[k].3[0] != known_equivalences()[2].3[0]);
        } else if k == 8 {
            reveal_strlit("c59208c86fded335cd85e388030ad59347b0e5ae");
            assert(registry::backbone()[k].3[0] != known_equivalences()[2].3[0]);
        } else if k == 9 {
            reveal_strlit("417dccdeff249e0c011327de7d92e0d6fbe7cc43");
            assert(registry::backbone()[k].3[0] != known_equivalences()[2].3[0]);
        } else if k == 10 {
            reveal_strlit("7bcb37cdb3399977658c8b52d2441d37e42e48f2");
            assert(registry::backbone()[k].3[0] != known_equivalences()[2].3[0]);
        } else if k == 11 {
            reveal_strlit("842ffde933fdd76cd1681a288bed136d8b95a97a");
            assert(registry::backbone()[k].3[0] != known_equivalences()[2].3[0]);
        } else if k == 12 {
            reveal_strlit("58ab776b95a4c2865554badbb6629c50971a9118");
            assert(registry::backbone()[k].3[0] != known_equivalences()[2].3[0]);
        } else if k == 13 {
            reveal_strlit("5c657b32522023a9f7ef883fb08582fd8e656b1a");
            assert(registry::backbone()[k].3[0] != known_equivalences()[2].3[0]);
        } else if k == 14 {
            reveal_strlit("7fc3b4c30c94f73a96ebd1553f2b090d928fc3a8");
            assert(registry::backbone()[k].3[0] != known_equivalences()[2].3[0]);
        } else if k == 15 {
            reveal_strlit("4f6dbfac79647d032b0997b5ab73022340c6dab7");
            assert(registry::backbone()[k].3[0] != known_equivalences()[2].3[0]);
        } else if k == 16 {
            reveal_strlit("239dd83a4ced08e514d2c38942aab99791119f0d");
            assert(registry::backbone()[k].3[0] != known_equivalences()[2].3[0]);
        } else if k == 17 {
            reveal_strlit("f3417ae86f015b9d0d8789b8fa11e64f9fec0adf");
            assert(registry::backbone()[k].3[0] != known_equivalences()[2].3[0]);
        } else if k == 18 {
            reveal_strlit("b863968301f0e889fa04afc590d7e2c9a4100dc3");
            assert(registry::backbone()[k].3[1] != known_equivalences()[2].3[1]);
        } else if k == 19 {
            reveal_strlit("b863968301f0e889fa04afc590d7e2c9a4100dc3");
            assert(registry::backbone()[k].3[1] != known_equivalences()[2].3[1]);
        } else if k == 20 {
            reveal_strlit("93c81772305a102f1ec846bd12713dd7bf1e3f04");
            assert(registry::backbone()[k].3[0] != known_equivalences()[2].3[0]);
        } else if k == 21 {
            reveal_strlit("93c81772305a102f1ec846bd12713dd7bf1e3f04");
            assert(registry::backbone()[k].3[0] != known_equivalences()[2].3[0]);
        } else if k == 22 {
            reveal_strlit("86d92e8d284b0acd451e7b6db6bdef41ae9c9db4");
            assert(registry::backbone()[k].3[0] != known_equivalences()[2].3[0]);
        } else if k == 23 {
            reveal_strlit("a150f65ce810793293d5c9dd815f4510eb6d8e4c");
            assert(registry::backbone()[k].3[0] != known_equivalences()[2].3[0]);
        } else if k == 24 {
            reveal_strlit("b9625d83b524f7a8306883484f29a746eefc1bab");
            assert(registry::backbone()[k].3[1] != known_equivalences()[2].3[1]);
        } else if k == 25 {
            reveal_strlit("0d6c7d5469baa09e2fb127ee3758a79b3271a4f0");
            assert(registry::backbone()[k].3[0] != known_equivalences()[2].3[0]);
        } else if k == 26 {
            reveal_strlit("ad83b63824385a4e5758d263db707549bbe59ba7");
            assert(registry::backbone()[k].3[0] != known_equivalences()[2].3[0]);
        } else if k == 27 {
            reveal_strlit("995b59f66677d44767ce9faac6957e5543617ff9");
            assert(registry::backbone()[k].3[0] != known_equivalences()[2].3[0]);
        } else if k == 28 {
            reveal_strlit("4dec426aa2a6cbabb1b064319ba7c272d594a688");
            assert(registry::backbone()[k].3[0] != known_equivalences()[2].3[0]);
        }
    }
    assert forall|g: int| 0 <= g < known_equivalences().len() implies #[trigger] known_equivalences()[g].4 != known_equivalences()[2].3 by {
        if g == 0 {
            reveal_strlit("7bcb37cdb3399977658c8b52d2441d37e42e48f2");
            assert(known_equivalences()[g].4[0] != known_equivalences()[2].3[0]);
        } else if g == 1 {
            reveal_strlit("25a15e272b3ae5aee76b525902c2ab91b0d9e12e");
            assert(known_equivalences()[g].4[0] != known_equivalences()[2].3[0]);
        } else if g == 2 {
            reveal_strlit("842ffde933fdd76cd1681a288bed136d8b95a97a");
            assert(known_equivalences()[g].4[0] != known_equivalences()[2].3[0]);
        } else if g == 3 {
            reveal_strlit("58ab776b95a4c2865554badbb6629c50971a9118");
            assert(known_equivalences()[g].4[0] != known_equivalences()[2].3[0]);
        } else if g == 4 {
            reveal_strlit("d84a5073d5108fce1774b375105dfdb13fe4e81c");
            assert(known_equivalences()[g].4[0] != known_equivalences()[2].3[0]);
        } else if g == 5 {
            reveal_strlit("886ca4ca4820297191c6e9f7b023dc356f31a4d1");
            assert(known_equivalences()[g].4[0] != known_equivalences()[2].3[0]);
        }
    }
}

proof fn lemma_lockfile_apart_3()
    ensures
        forall|k: int| 0 <= k < registry::backbone().len() ==> #[trigger] registry::backbone()[k].3 != known_equivalences()[3].3,
        forall|g: int| 0 <= g < known_equivalences().len() ==> #[trigger] known_equivalences()[g].4 != known_equivalences()[3].3,
{
    reveal_strlit("da51f8d005cc5d8299c1872fad9bbe63b07c31c7");
    assert forall|k: int| 0 <= k < registry::backbone().len() implies #[trigger] registry::backbone()[k].3 != known_equivalences()[3].3 by {
        if k == 0 {
            reveal_strlit("550a8e5a1a7b121bd970eff3e7575acd158f6bb8");
            assert(registry::backbone()[k].3[0] != known_equivalences()[3].3[0]);
        } else if k == 1 {
            reveal_strlit("d79791e26e44dbd3667f05caa6a97fcd12b3d146");
            assert(registry::backbone()[k].3[1] != known_equivalences()[3].3[1]);
        } else if k == 2 {
            reveal_strlit("5723cf486522d47aad26390cf5b02e95654ae225");
            assert(registry::backbone()[k].3[0] != known_equivalences()[3].3[0]);
        } else if k == 3 {
            reveal_strlit("5723cf486522d47aad26390cf5b02e95654ae225");
            assert(registry::backbone()[k].3[0] != known_equivalences()[3].3[0]);
        } else if k == 4 {
            reveal_strlit("25a15e272b3ae5aee76b525902c2ab91b0d9e12e");
            assert(registry::backbone()[k].3[0] != known_equivalences()[3].3[0]);
        } else if k == 5 {
            reveal_strlit("d84a5073d5108fce1774b375105dfdb13fe4e81c");
            assert(registry::backbone()[k].3[1] != known_equivalences()[3].3[1]);
        } else if k == 6 {
            reveal_strlit("886ca4ca4820297191c6e9f7b023dc356f31a4d1");
            assert(registry::backbone()[k].3[0] != known_equivalences()[3].3[0]);
        } else if k == 7 {
            reveal_strlit("4f26be4d450910916ea11533b2efc52b9a6483bc");
            assert(registry::backbone()[k].3[0] != known_equivalences()[3].3[0]);
        } else if k == 8 {
            reveal_strlit("c59208c86fded335cd85e388030ad59347b0e5ae");
            assert(registry::backbone()[k].3[0] != known_equivalences()[3].3[0]);
        } else if k == 9 {
            reveal_strlit("417dccdeff249e0c011327de7d92e0d6fbe7cc43");
            assert(registry::backbone()[k].3[0] != known_equivalences()[3].3[0]);
        } else if k == 10 {
            reveal_strlit("7bcb37cdb3399977658c8b52d2441d37e42e48f2");
            assert(registry::backbone()[k].3[0] != known_equivalences()[3].3[0]);
        } else if k == 11 {
            reveal_strlit("842ffde933fdd76cd1681a288bed136d8b95a97a");
            assert(registry::backbone()[k].3[0] != known_equivalences()[3].3[0]);
        } else if k == 12 {
            reveal_strlit("58ab776b95a4c2865554badbb6629c50971a9118");
            assert(registry::backbone()[k].3[0] != known_equivalences()[3].3[0]);
        } else if k == 13 {
            reveal_strlit("5c657b32522023a9f7ef883fb08582fd8e656b1a");
            assert(registry::backbone()[k].3[0] != known_equivalences()[3].3[0]);
        } else if k == 14 {
            reveal_strlit("7fc3b4c30c94f73a96ebd1553f2b090d928fc3a8");
            assert(registry::backbone()[k].3[0] != known_equivalences()[3].3[0]);
        } else if k == 15 {
            reveal_strlit("4f6dbfac79647d032b0997b5ab73022340c6dab7");
            assert(registry::backbone()[k].3[0] != known_equivalences()[3].3[0]);
        } else if k == 16 {
            reveal_strlit("239dd83a4ced08e514d2c38942aab99791119f0d");
            assert(registry::backbone()[k].3[0] != known_equivalences()[3].3[0]);
        } else if k == 17 {
            reveal_strlit("f3417ae86f015b9d0d8789b8fa11e64f9fec0adf");
            assert(registry::backbone()[k].3[0] != known_equivalences()[3].3[0]);
        } else if k == 18 {
            reveal_strlit("b863968301f0e889fa04afc590d7e2c9a4100dc3");
            assert(registry::backbone()[k].3[0] != known_equivalences()[3].3[0]);
        } else if k == 19 {
            reveal_strlit("b863968301f0e889fa04afc590d7e2c9a4100dc3");
            assert(registry::backbone()[k].3[0] != known_equivalences()[3].3[0]);
        } else if k == 20 {
            reveal_strlit("93c81772305a102f1ec846bd12713dd7bf1e3f04");
            assert(registry::backbone()[k].3[0] != known_equivalences()[3].3[0]);
        } else if k == 21 {
            reveal_strlit("93c81772305a102f1ec846bd12713dd7bf1e3f04");
            assert(registry::backbone()[k].3[0] != known_equivalences()[3].3[0]);
        } else if k == 22 {
            reveal_strlit("86d92e8d284b0acd451e7b6db6bdef41ae9c9db4");
            assert(registry::backbone()[k].3[0] != known_equivalences()[3].3[0]);
        } else if k == 23 {
            reveal_strlit("a150f65ce810793293d5c9dd815f4510eb6d8e4c");
            assert(registry::backbone()[k].3[0] != known_equivalences()[3].3[0]);
        } else if k == 24 {
            reveal_strlit("b9625d83b524f7a8306883484f29a746eefc1bab");
            assert(registry::backbone()[k].3[0] != known_equivalences()[3].3[0]);
        } else if k == 25 {
            reveal_strlit("0d6c7d5469baa09e2fb127ee3758a79b3271a4f0");
            assert(registry::backbone()[k].3[0] != known_equivalences()[3].3[0]);
        } else if k == 26 {
            reveal_strlit("ad83b63824385a4e5758d263db707549bbe59ba7");
            assert(registry::backbone()[k].3[0] != known_equivalences()[3].3[0]);
        } else if k == 27 {
            reveal_strlit("995b59f66677d44767ce9faac6957e5543617ff9");
            assert(registry::backbone()[k].3[0] != known_equivalences()[3].3[0]);
        } else if k == 28 {
            reveal_strlit("4dec426aa2a6cbabb1b064319ba7c272d594a688");
            assert(registry::backbone()[k].3[0] != known_equivalences()[3].3[0]);
        }
    }
    assert forall|g: int| 0 <= g < known_equivalences().len() implies #[trigger] known_equivalences()[g].4 != known_equivalences()[3].3 by {
        if g == 0 {
            reveal_strlit("7bcb37cdb3399977658c8b52d2441d37e42e48f2");
            assert(known_equivalences()[g].4[0] != known_equivalences()[3].3[0]);
        } else if g == 1 {
            reveal_strlit("25a15e272b3ae5aee76b525902c2ab91b0d9e12e");
            assert(known_equivalences()[g].4[0] != known_equivalences()[3].3[0]);
        } else if g == 2 {
            reveal_strlit("842ffde933fdd76cd1681a288bed136d8b95a97a");
            assert(known_equivalences()[g].4[0] != known_equivalences()[3].3[0]);
        } else if g == 3 {
            reveal_strlit("58ab776b95a4c2865554badbb6629c50971a9118");
            assert(known_equivalences()[g].4[0] != known_equivalences()[3].3[0]);
        } else if g == 4 {
            reveal_strlit("d84a5073d5108fce1774b375105dfdb13fe4e81c");
            assert(known_equivalences()[g].4[1] != known_equivalences()[3].3[1]);
        } else if g == 5 {
            reveal_strlit("886ca4ca4820297191c6e9f7b023dc356f31a4d1");
            assert(known_equivalences()[g].4[0] != known_equivalences()[3].3[0]);
        }
    }
}

proof fn lemma_lockfile_apart_4()
    ensures
        forall|k: int| 0 <= k < registry::backbone().len() ==> #[trigger] registry::backbone()[k].3 != known_equivalences()[4].3,
        forall|g: int| 0 <= g < known_equivalences().len() ==> #[trigger] known_equivalences()[g].4 != known_equivalences()[4].3,
{
    reveal_strlit("8eb6f5a3e8348ad80f16d2174c3d387064a1cc2e");
    assert forall|k: int| 0 <= k < registry::backbone().len() implies #[trigger] registry::backbone()[k].3 != known_equivalences()[4].3 by {
        if k == 0 {
            reveal_strlit("550a8e5a1a7b121bd970eff3e7575acd158f6bb8");
            assert(registry::backbone()[k].3[0] != known_equivalences()[4].3[0]);
        } else if k == 1 {
            reveal_strlit("d79791e26e44dbd3667f05caa6a97fcd12b3d146");
            assert(registry::backbone()[k].3[0] != known_equivalences()[4].3[0]);
        } else if k == 2 {
            reveal_strlit("5723cf486522d47aad26390cf5b02e95654ae225");
            assert(registry::backbone()[k].3[0] != known_equivalences()[4].3[0]);
        } else if k == 3 {
            reveal_strlit("5723cf486522d47aad26390cf5b02e95654ae225");
            assert(registry::backbone()[k].3[0] != known_equivalences()[4].3[0]);
        } else if k == 4 {
            reveal_strlit("25a15e272b3ae5aee76b525902c2ab91b0d9e12e");
            assert(registry::backbone()[k].3[0] != known_equivalences()[4].3[0]);
        } else if k == 5 {
            reveal_strlit("d84a5073d5108fce1774b375105dfdb13fe4e81c");
            assert(registry::backbone()[k].3[0] != known_equivalences()[4].3[0]);
        } else if k == 6 {
            reveal_strlit("886ca4ca4820297191c6e9f7b023dc356f31a4d1");
            assert(registry::backbone()[k].3[1] != known_equivalences()[4].3[1]);
        } else if k == 7 {
            reveal_strlit("4f26be4d450910916ea11533b2efc52b9a6483bc");
            assert(registry::backbone()[k].3[0] != known_equivalences()[4].3[0]);
        } else if k == 8 {
            reveal_strlit("c59208c86fded335cd85e388030ad59347b0e5ae");
            assert(registry::backbone()[k].3[0] != known_equivalences()[4].3[0]);
        } else if k == 9 {
            reveal_strlit("417dccdeff249e0c011327de7d92e0d6fbe7cc43");
            assert(registry::backbone()[k].3[0] != known_equivalences()[4].3[0]);
        } else if k == 10 {
            reveal_strlit("7bcb37cdb3399977658c8b52d2441d37e42e48f2");
            assert(registry::backbone()[k].3[0] != known_equivalences()[4].3[0]);
        } else if k == 11 {
            reveal_strlit("842ffde933fdd76cd1681a288bed136d8b95a97a");
            assert(registry::backbone()[k].3[1] != known_equivalences()[4].3[1]);
        } else if k == 12 {
            reveal_strlit("58ab776b95a4c2865554badbb6629c50971a9118");
            assert(registry::backbone()[k].3[0] != known_equivalences()[4].3[0]);
        } else if k == 13 {
            reveal_strlit("5c657b32522023a9f7ef883fb08582fd8e656b1a");
            assert(registry::backbone()[k].3[0] != known_equivalences()[4].3[0]);
        } else if k == 14 {
            reveal_strlit("7fc3b4c30c94f73a96ebd1553f2b090d928fc3a8");
            assert(registry::backbone()[k].3[0] != known_equivalences()[4].3[0]);
        } else if k == 15 {
            reveal_strlit("4f6dbfac79647d032b0997b5ab73022340c6dab7");
            assert(registry::backbone()[k].3[0] != known_equivalences()[4].3[0]);
        } else if k == 16 {
            reveal_strlit("239dd83a4ced08e514d2c38942aab99791119f0d");
            assert(registry::backbone()[k].3[0] != known_equivalences()[4].3[0]);
        } else if k == 17 {
            reveal_strlit("f3417ae86f015b9d0d8789b8fa11e64f9fec0adf");
            assert(registry::backbone()[k].3[0] != known_equivalences()[4].3[0]);
        } else if k == 18 {
            reveal_strlit("b863968301f0e889fa04afc590d7e2c9a4100dc3");
            assert(registry::backbone()[k].3[0] != known_equivalences()[4].3[0]);
        } else if k == 19 {
            reveal_strlit("b863968301f0e889fa04afc590d7e2c9a4100dc3");
            assert(registry::backbone()[k].3[0] != known_equivalences()[4].3[0]);
        } else if k == 20 {
            reveal_strlit("93c81772305a102f1ec846bd12713dd7bf1e3f04");
            assert(registry::backbone()[k].3[0] != known_equivalences()[4].3[0]);
        } else if k == 21 {
            reveal_strlit("93c81772305a102f1ec846bd12713dd7bf1e3f04");
            assert(registry::backbone()[k].3[0] != known_equivalences()[4].3[0]);
        } else if k == 22 {
            reveal_strlit("86d92e8d284b0acd451e7b6db6bdef41ae9c9db4");
            assert(registry::backbone()[k].3[1] != known_equivalences()[4].3[1]);
        } else if k == 23 {
            reveal_strlit("a150f65ce810793293d5c9dd815f4510eb6d8e4c");
            assert(registry::backbone()[k].3[0] != known_equivalences()[4].3[0]);
        } else if k == 24 {
            reveal_strlit("b9625d83b524f7a8306883484f29a746eefc1bab");
            assert(registry::backbone()[k].3[0] != known_equivalences()[4].3[0]);
        } else if k == 25 {
            reveal_strlit("0d6c7d5469baa09e2fb127ee3758a79b3271a4f0");
            assert(registry::backbone()[k].3[0] != known_equivalences()[4].3[0]);
        } else if k == 26 {
            reveal_strlit("ad83b63824385a4e5758d263db707549bbe59ba7");
            assert(registry::backbone()[k].3[0] != known_equivalences()[4].3[0]);
        } else if k == 27 {
            reveal_strlit("995b59f66677d44767ce9faac6957e5543617ff9");
            assert(registry::backbone()[k].3[0] != known_equivalences()[4].3[0]);
        } else if k == 28 {
            reveal_strlit("4dec426aa2a6cbabb1b064319ba7c272d594a688");
            assert(registry::backbone()[k].3[0] != known_equivalences()[4].3[0]);
        }
    }
    assert forall|g: int| 0 <= g < known_equivalences().len() implies #[trigger] known_equivalences()[g].4 != known_equivalences()[4].3 by {
        if g == 0 {
            reveal_strlit("7bcb37cdb3399977658c8b52d2441d37e42e48f2");
            assert(known_equivalences()[g].4[0] != known_equivalences()[4].3[0]);
        } else if g == 1 {
            reveal_strlit("25a15e272b3ae5aee76b525902c2ab91b0d9e12e");
            assert(known_equivalences()[g].4[0] != known_equivalences()[4].3[0]);
        } else if g == 2 {
            reveal_strlit("842ffde933fdd76cd1681a288bed136d8b95a97a");
            assert(known_equivalences()[g].4[1] != known_equivalences()[4].3[1]);
        } else if g == 3 {
            reveal_strlit("58ab776b95a4c2865554badbb6629c50971a9118");
            assert(known_equivalences()[g].4[0] != known_equivalences()[4].3[0]);
        } else if g == 4 {
            reveal_strlit("d84a5073d5108fce1774b375105dfdb13fe4e81c");
            assert(known_equivalences()[g].4[0] != known_equivalences()[4].3[0]);
        } else if g == 5 {
            reveal_strlit("886ca4ca4820297191c6e9f7b023dc356f31a4d1");
            assert(known_equivalences()[g].4[1] != known_equivalences()[4].3[1]);
        }
    }
}

proof fn lemma_lockfile_apart_5()
    ensures
        forall|k: int| 0 <= k < registry::backbone().len() ==> #[trigger] registry::backbone()[k].3 != known_equivalences()[5].3,
        forall|g: int| 0 <= g < known_equivalences().len() ==> #[trigger] known_equivalences()[g].4 != known_equivalences()[5].3,
{
    reveal_strlit("0ba6735559ae9c1cb7e6470a97834a95cc06fbbb");
    assert forall|k: int| 0 <= k < registry::backbone().len() implies #[trigger] registry::backbone()[k].3 != known_equivalences()[5].3 by {
        if k == 0 {
            reveal_strlit("550a8e5a1a7b121bd970eff3e7575acd158f6bb8");
            assert(registry::backbone()[k].3[0] != known_equivalences()[5].3[0]);
        } else if k == 1 {
            reveal_strlit("d79791e26e44dbd3667f05caa6a97fcd12b3d146");
            assert(registry::backbone()[k].3[0] != known_equivalences()[5].3[0]);
        } else if k == 2 {
            reveal_strlit("5723cf486522d47aad26390cf5b02e95654ae225");
            assert(registry::backbone()[k].3[0] != known_equivalences()[5].3[0]);
        } else if k == 3 {
            reveal_strlit("5723cf486522d47aad26390cf5b02e95654ae225");
            assert(registry::backbone()[k].3[0] != known_equivalences()[5].3[0]);
        } else if k == 4 {
            reveal_strlit("25a15e272b3ae5aee76b525902c2ab91b0d9e12e");
            assert(registry::backbone()[k].3[0] != known_equivalences()[5].3[0]);
        } else if k == 5 {
            reveal_strlit("d84a5073d5108fce1774b375105dfdb13fe4e81c");
            assert(registry::backbone()[k].3[0] != known_equivalences()[5].3[0]);
        } else if k == 6 {
            reveal_strlit("886ca4ca4820297191c6e9f7b023dc356f31a4d1");
            assert(registry::backbone()[k].3[0] != known_equivalences()[5].3[0]);
        } else if k == 7 {
            reveal_strlit("4f26be4d450910916ea11533b2efc52b9a6483bc");
            assert(registry::backbone()[k].3[0] != known_equivalences()[5].3[0]);
        } else if k == 8 {
            reveal_strlit("c59208c86fded335cd85e388030ad59347b0e5ae");
            assert(registry::backbone()[k].3[0] != known_equivalences()[5].3[0]);
        } else if k == 9 {
            reveal_strlit("417dccdeff249e0c011327de7d92e0d6fbe7cc43");
            assert(registry::backbone()[k].3[0] != known_equivalences()[5].3[0]);
        } else if k == 10 {
            reveal_strlit("7bcb37cdb3399977658c8b52d2441d37e42e48f2");
            assert(registry::backbone()[k].3[0] != known_equivalences()[5].3[0]);
        } else if k == 11 {
            reveal_strlit("842ffde933fdd76cd1681a288bed136d8b95a97a");
            assert(registry::backbone()[k].3[0] != known_equivalences()[5].3[0]);
        } else if k == 12 {
            reveal_strlit("58ab776b95a4c2865554badbb6629c50971a9118");
            assert(registry::backbone()[k].3[0] != known_equivalences()[5].3[0]);
        } else if k == 13 {
            reveal_strlit("5c657b32522023a9f7ef883fb08582fd8e656b1a");
            assert(registry::backbone()[k].3[0] != known_equivalences()[5].3[0]);
        } else if k == 14 {
            reveal_strlit("7fc3b4c30c94f73a96ebd1553f2b090d928fc3a8");
            assert(registry::backbone()[k].3[0] != known_equivalences()[5].3[0]);
        } else if k == 15 {
            reveal_strlit("4f6dbfac79647d032b0997b5ab73022340c6dab7");
            assert(registry::backbone()[k].3[0] != known_equivalences()[5].3[0]);
        } else if k == 16 {
            reveal_strlit("239dd83a4ced08e514d2c38942aab99791119f0d");
            assert(registry::backbone()[k].3[0] != known_equivalences()[5].3[0]);
        } else if k == 17 {
            reveal_strlit("f3417ae86f015b9d0d8789b8fa11e64f9fec0adf");
            assert(registry::backbone()[k].3[0] != known_equivalences()[5].3[0]);
        } else if k == 18 {
            reveal_strlit("b863968301f0e889fa04afc590d7e2c9a4100dc3");
            assert(registry::backbone()[k].3[0] != known_equivalences()[5].3[0]);
        } else if k == 19 {
            reveal_strlit("b863968301f0e889fa04afc590d7e2c9a4100dc3");
            assert(registry::backbone()[k].3[0] != known_equivalences()[5].3[0]);
        } else if k == 20 {
            reveal_strlit("93c81772305a102f1ec846bd12713dd7bf1e3f04");
            assert(registry::backbone()[k].3[0] != known_equivalences()[5].3[0]);
        } else if k == 21 {
            reveal_strlit("93c81772305a102f1ec846bd12713dd7bf1e3f04");
            assert(registry::backbone()[k].3[0] != known_equivalences()[5].3[0]);
        } else if k == 22 {
            reveal_strlit("86d92e8d284b0acd451e7b6db6bdef41ae9c9db4");
            assert(registry::backbone()[k].3[0] != known_equivalences()[5].3[0]);
        } else if k == 23 {
            reveal_strlit("a150f65ce810793293d5c9dd815f4510eb6d8e4c");
            assert(registry::backbone()[k].3[0] != known_equivalences()[5].3[0]);
        } else if k == 24 {
            reveal_strlit("b9625d83b524f7a8306883484f29a746eefc1bab");
            assert(registry::backbone()[k].3[0] != known_equivalences()[5].3[0]);
        } else if k == 25 {
            reveal_strlit("0d6c7d5469baa09e2fb127ee3758a79b3271a4f0");
            assert(registry::backbone()[k].3[1] != known_equivalences()[5].3[1]);
        } else if k == 26 {
            reveal_strlit("ad83b63824385a4e5758d263db707549bbe59ba7");
            assert(registry::backbone()[k].3[0] != known_equivalences()[5].3[0]);
        } else if k == 27 {
            reveal_strlit("995b59f66677d44767ce9faac6957e5543617ff9");
            assert(registry::backbone()[k].3[0] != known_equivalences()[5].3[0]);
        } else if k == 28 {
            reveal_strlit("4dec426aa2a6cbabb1b064319ba7c272d594a688");
            assert(registry::backbone()[k].3[0] != known_equivalences()[5].3[0]);
        }
    }
    assert forall|g: int| 0 <= g < known_equivalences().len() implies #[trigger] known_equivalences()[g].4 != known_equivalences()[5].3 by {
        if g == 0 {
            reveal_strlit("7bcb37cdb3399977658c8b52d2441d37e42e48f2");
            assert(known_equivalences()[g].4[0] != known_equivalences()[5].3[0]);
        } else if g == 1 {
            reveal_strlit("25a15e272b3ae5aee76b525902c2ab91b0d9e12e");
            assert(known_equivalences()[g].4[0] != known_equivalences()[5].3[0]);
        } else if g == 2 {
            reveal_strlit("842ffde933fdd76cd1681a288bed136d8b95a97a");
            assert(known_equivalences()[g].4[0] != known_equivalences()[5].3[0]);
        } else if g == 3 {
            reveal_strlit("58ab776b95a4c2865554badbb6629c50971a9118");
            assert(known_equivalences()[g].4[0] != known_equivalences()[5].3[0]);
        } else if g == 4 {
            reveal_strlit("d84a5073d5108fce1774b375105dfdb13fe4e81c");
            assert(known_equivalences()[g].4[0] != known_equivalences()[5].3[0]);
        } else if g == 5 {
            reveal_strlit("886ca4ca4820297191c6e9f7b023dc356f31a4d1");
            assert(known_equivalences()[g].4[0] != known_equivalences()[5].3[0]);
        }
    }
}

/// No lockfile commit of the table is a backbone commit or a canonical
/// commit of the table.
proof fn lemma_lockfiles_apart()
    ensures
        forall|f: int, k: int|
            0 <= f < known_equivalences().len() && 0 <= k < registry::backbone().len() ==> #[trigger] registry::backbone()[k].3
                != #[trigger] known_equivalences()[f].3,
        forall|f: int, g: int|
            0 <= f < known_equivalences().len() && 0 <= g < known_equivalences().len() ==> #[trigger] known_equivalences()[g].4
                != #[trigger] known_equivalences()[f].3,
{
    assert forall|f: int, k: int|
        0 <= f < known_equivalences().len() && 0 <= k < registry::backbone().len() implies #[trigger] registry::backbone()[k].3
            != #[trigger] known_equivalences()[f].3 by {
        if f == 0 {
            lemma_lockfile_apart_0();
        } else if f == 1 {
            lemma_lockfile_apart_1();
        } else if f == 2 {
            lemma_lockfile_apart_2();
        } else if f == 3 {
            lemma_lockfile_apart_3();
        } else if f == 4 {
            lemma_lockfile_apart_4();
        } else if f == 5 {
            lemma_lockfile_apart_5();
        }
    }
    assert forall|f: int, g: int|
        0 <= f < known_equivalences().len() && 0 <= g < known_equivalences().len() implies #[trigger] known_equivalences()[g].4
            != #[trigger] known_equivalences()[f].3 by {
        if f == 0 {
            lemma_lockfile_apart_0();
        } else if f == 1 {
            lemma_lockfile_apart_1();
        } else if f == 2 {
            lemma_lockfile_apart_2();
        } else if f == 3 {
            lemma_lockfile_apart_3();
        } else if f == 4 {
            lemma_lockfile_apart_4();
        } else if f == 5 {
            lemma_lockfile_apart_5();
        }
    }
}

proof fn lemma_table_row_resolves_0()
    ensures
        registry::resolve_spec(known_equivalences()[0].0, None) matches Some(x) && x.2 == known_equivalences()[0].4,
        registry::resolve_spec(known_equivalences()[0].2, None) matches Some(x) && x.2 == known_equivalences()[0].4,
        registry::resolve_spec(registry::slash_join(known_equivalences()[0].1, known_equivalences()[0].2), None) matches Some(x)
            && x.2 == known_equivalences()[0].4,
{
    reveal_strlit("syn");
    reveal_strlit("dtolnay");
    reveal_strlit("7bcb37cdb3399977658c8b52d2441d37e42e48f2");
    reveal_strlit("dtolnay");
    reveal_strlit("syn");
    reveal_strlit("-rs");
    reveal_strlit("_rs");
    let q = "syn"@;
    assert(text::ascii_lower_seq(q) =~= q);
    registry::lemma_plain_key(q, q);
    assert(!text::has_char(q, '/'));
    assert forall|i: int| !text::occurs_at(q, "-rs"@, i) by {
        if text::occurs_at(q, "-rs"@, i) {
            assert(q.subrange(i, i + 3)[0] == q[i]);
            assert(q.subrange(i, i + 3)[1] == q[i + 1]);
        }
    }
    assert forall|i: int| !text::occurs_at(q, "_rs"@, i) by {
        if text::occurs_at(q, "_rs"@, i) {
            assert(q.subrange(i, i + 3)[0] == q[i]);
        }
    }
    assert forall|i: int| 0 <= i < 10 implies registry::backbone()[i].0 != q by {
            if i == 0 {
                reveal_strlit("rlex");
                assert(registry::backbone()[i].0.len() != "syn"@.len());
            } else if i == 1 {
                reveal_strlit("git-lex");
                assert(registry::backbone()[i].0.len() != "syn"@.len());
            } else if i == 2 {
                reveal_strlit("actix");
                assert(registry::backbone()[i].0.len() != "syn"@.len());
            } else if i == 3 {
                reveal_strlit("actix-web");
                assert(registry::backbone()[i].0.len() != "syn"@.len());
            } else if i == 4 {
                reveal_strlit("regex");
                assert(registry::backbone()[i].0.len() != "syn"@.len());
            } else if i == 5 {
                reveal_strlit("aho-corasick");
                assert(registry::backbone()[i].0.len() != "syn"@.len());
            } else if i == 6 {
                reveal_strlit("memchr");
                assert(registry::backbone()[i].0.len() != "syn"@.len());
            } else if i == 7 {
                reveal_strlit("walkdir");
                assert(registry::backbone()[i].0.len() != "syn"@.len());
            } else if i == 8 {
                reveal_strlit("axum");
                assert(registry::backbone()[i].0.len() != "syn"@.len());
            } else if i == 9 {
                reveal_strlit("bytes");
                assert(registry::backbone()[i].0.len() != "syn"@.len());
            }
    }
    registry::lemma_resolve_by_alias(q, 10);
    registry::law_backbone_found_by_name(10);
    reveal_strlit("/");
    assert(registry::slash_join(registry::backbone()[10].1, registry::backbone()[10].2) =~= registry::slash_join(
        known_equivalences()[0].1,
        known_equivalences()[0].2,
    ));
}

proof fn lemma_table_row_resolves_1()
    ensures
        registry::resolve_spec(known_equivalences()[1].0, None) matches Some(x) && x.2 == known_equivalences()[1].4,
        registry::resolve_spec(known_equivalences()[1].2, None) matches Some(x) && x.2 == known_equivalences()[1].4,
        registry::resolve_spec(registry::slash_join(known_equivalences()[1].1, known_equivalences()[1].2), None) matches Some(x)
            && x.2 == known_equivalences()[1].4,
{
    reveal_strlit("regex");
    reveal_strlit("rust-lang");
    reveal_strlit("25a15e272b3ae5aee76b525902c2ab91b0d9e12e");
    reveal_strlit("rust-lang");
    reveal_strlit("regex");
    reveal_strlit("-rs");
    reveal_strlit("_rs");
    let q = "regex"@;
    assert(text::ascii_lower_seq(q) =~= q);
    registry::lemma_plain_key(q, q);
    assert(!text::has_char(q, '/'));
    assert forall|i: int| !text::occurs_at(q, "-rs"@, i) by {
        if text::occurs_at(q, "-rs"@, i) {
            assert(q.subrange(i, i + 3)[0] == q[i]);
            assert(q.subrange(i, i + 3)[1] == q[i + 1]);
        }
    }
    assert forall|i: int| !text::occurs_at(q, "_rs"@, i) by {
        if text::occurs_at(q, "_rs"@, i) {
            assert(q.subrange(i, i + 3)[0] == q[i]);
        }
    }
    assert forall|i: int| 0 <= i < 4 implies registry::backbone()[i].0 != q by {
            if i == 0 {
                reveal_strlit("rlex");
                assert(registry::backbone()[i].0.len() != "regex"@.len());
            } else if i == 1 {
                reveal_strlit("git-lex");
                assert(registry::backbone()[i].0.len() != "regex"@.len());
            } else if i == 2 {
                reveal_strlit("actix");
                assert(registry::backbone()[i].0[0] != "regex"@[0]);
            } else if i == 3 {
                reveal_strlit("actix-web");
                assert(registry::backbone()[i].0.len() != "regex"@.len());
            }
    }
    registry::lemma_resolve_by_alias(q, 4);
    registry::law_backbone_found_by_name(4);
    reveal_strlit("/");
    assert(registry::slash_join(registry::backbone()[4].1, registry::backbone()[4].2) =~= registry::slash_join(
        known_equivalences()[1].1,
        known_equivalences()[1].2,
    ));
}

proof fn lemma_table_row_resolves_2()
    ensures
        registry::resolve_spec(known_equivalences()[2].0, None) matches Some(x) && x.2 == known_equivalences()[2].4,
        registry::resolve_spec(known_equivalences()[2].2, None) matches Some(x) && x.2 == known_equivalences()[2].4,
        registry::resolve_spec(registry::slash_join(known_equivalences()[2].1, known_equivalences()[2].2), None) matches Some(x)
            && x.2 == known_equivalences()[2].4,
{
    reveal_strlit("quote");
    reveal_strlit("dtolnay");
    reveal_strlit("842ffde933fdd76cd1681a288bed136d8b95a97a");
    reveal_strlit("dtolnay");
    reveal_strlit("quote");
    reveal_strlit("-rs");
    reveal_strlit("_rs");
    let q = "quote"@;
    assert(text::ascii_lower_seq(q) =~= q);
    registry::lemma_plain_key(q, q);
    assert(!text::has_char(q, '/'));
    assert forall|i: int| !text::occurs_at(q, "-rs"@, i) by {
        if text::occurs_at(q, "-rs"@, i) {
            assert(q.subrange(i, i + 3)[0] == q[i]);
            assert(q.subrange(i, i + 3)[1] == q[i + 1]);
        }
    }
    assert forall|i: int| !text::occurs_at(q, "_rs"@, i) by {
        if text::occurs_at(q, "_rs"@, i) {
            assert(q.subrange(i, i + 3)[0] == q[i]);
        }
    }
    assert forall|i: int| 0 <= i < 11 implies registry::backbone()[i].0 != q by {
            if i == 0 {
                reveal_strlit("rlex");
                assert(registry::backbone()[i].0.len() != "quote"@.len());
            } else if i == 1 {
                reveal_strlit("git-lex");
                assert(registry::backbone()[i].0.len() != "quote"@.len());
            } else if i == 2 {
                reveal_strlit("actix");
                assert(registry::backbone()[i].0[0] != "quote"@[0]);
            } else if i == 3 {
                reveal_strlit("actix-web");
                assert(registry::backbone()[i].0.len() != "quote"@.len());
            } else if i == 4 {
                reveal_strlit("regex");
                assert(registry::backbone()[i].0[0] != "quote"@[0]);
            } else if i == 5 {
                reveal_strlit("aho-corasick");
                assert(registry::backbone()[i].0.len() != "quote"@.len());
            } else if i == 6 {
                reveal_strlit("memchr");
                assert(registry::backbone()[i].0.len() != "quote"@.len());
            } else if i == 7 {
                reveal_strlit("walkdir");
                assert(registry::backbone()[i].0.len() != "quote"@.len());
            } else if i == 8 {
                reveal_strlit("axum");
                assert(registry::backbone()[i].0.len() != "quote"@.len());
            } else if i == 9 {
                reveal_strlit("bytes");
                assert(registry::backbone()[i].0[0] != "quote"@[0]);
            } else if i == 10 {
                reveal_strlit("syn");
                assert(registry::backbone()[i].0.len() != "quote"@.len());
            }
    }
    registry::lemma_resolve_by_alias(q, 11);
    registry::law_backbone_found_by_name(11);
    reveal_strlit("/");
    assert(registry::slash_join(registry::backbone()[11].1, registry::backbone()[11].2) =~= registry::slash_join(
        known_equivalences()[2].1,
        known_equivalences()[2].2,
    ));
}

proof fn lemma_table_row_resolves_3()
    ensures
        registry::resolve_spec(known_equivalences()[3].0, None) matches Some(x) && x.2 == known_equivalences()[3].4,
        registry::resolve_spec(known_equivalences()[3].2, None) matches Some(x) && x.2 == known_equivalences()[3].4,
        registry::resolve_spec(registry::slash_join(known_equivalences()[3].1, known_equivalences()[3].2), None) matches Some(x)
            && x.2 == known_equivalences()[3].4,
{
    reveal_strlit("proc-macro2");
    reveal_strlit("dtolnay");
    reveal_strlit("58ab776b95a4c2865554badbb6629c50971a9118");
    reveal_strlit("dtolnay");
    reveal_strlit("proc-macro2");
    reveal_strlit("-rs");
    reveal_strlit("_rs");
    let q = "proc-macro2"@;
    assert(text::ascii_lower_seq(q) =~= q);
    registry::lemma_plain_key(q, q);
    assert(!text::has_char(q, '/'));
    assert forall|i: int| !text::occurs_at(q, "-rs"@, i) by {
        if text::occurs_at(q, "-rs"@, i) {
            assert(q.subrange(i, i + 3)[0] == q[i]);
            assert(q.subrange(i, i + 3)[1] == q[i + 1]);
        }
    }
    assert forall|i: int| !text::occurs_at(q, "_rs"@, i) by {
        if text::occurs_at(q, "_rs"@, i) {
            assert(q.subrange(i, i + 3)[0] == q[i]);
        }
    }
    assert forall|i: int| 0 <= i < 12 implies registry::backbone()[i].0 != q by {
            if i == 0 {
                reveal_strlit("rlex");
                assert(registry::backbone()[i].0.len() != "proc-macro2"@.len());
            } else if i == 1 {
                reveal_strlit("git-lex");
                assert(registry::backbone()[i].0.len() != "proc-macro2"@.len());
            } else if i == 2 {
                reveal_strlit("actix");
                assert(registry::backbone()[i].0.len() != "proc-macro2"@.len());
            } else if i == 3 {
                reveal_strlit("actix-web");
                assert(registry::backbone()[i].0.len() != "proc-macro2"@.len());
            } else if i == 4 {
                reveal_strlit("regex");
                assert(registry::backbone()[i].0.len() != "proc-macro2"@.len());
            } else if i == 5 {
                reveal_strlit("aho-corasick");
                assert(registry::backbone()[i].0.len() != "proc-macro2"@.len());
            } else if i == 6 {
                reveal_strlit("memchr");
                assert(registry::backbone()[i].0.len() != "proc-macro2"@.len());
            } else if i == 7 {
                reveal_strlit("walkdir");
                assert(registry::backbone()[i].0.len() != "proc-macro2"@.len());
            } else if i == 8 {
                reveal_strlit("axum");
                assert(registry::backbone()[i].0.len() != "proc-macro2"@.len());
            } else if i == 9 {
                reveal_strlit("bytes");
                assert(registry::backbone()[i].0.len() != "proc-macro2"@.len());
            } else if i == 10 {
                reveal_strlit("syn");
                assert(registry::backbone()[i].0.len() != "proc-macro2"@.len());
            } else if i == 11 {
                reveal_strlit("quote");
                assert(registry::backbone()[i].0.len() != "proc-macro2"@.len());
            }
    }
    registry::lemma_resolve_by_alias(q, 12);
    registry::law_backbone_found_by_name(12);
    reveal_strlit("/");
    assert(registry::slash_join(registry::backbone()[12].1, registry::backbone()[12].2) =~= registry::slash_join(
        known_equivalences()[3].1,
        known_equivalences()[3].2,
    ));
}

proof fn lemma_table_row_resolves_4()
    ensures
        registry::resolve_spec(known_equivalences()[4].0, None) matches Some(x) && x.2 == known_equivalences()[4].4,
        registry::resolve_spec(known_equivalences()[4].2, None) matches Some(x) && x.2 == known_equivalences()[4].4,
        registry::resolve_spec(registry::slash_join(known_equivalences()[4].1, known_equivalences()[4].2), None) matches Some(x)
            && x.2 == known_equivalences()[4].4,
{
    reveal_strlit("aho-corasick");
    reveal_strlit("BurntSushi");
    reveal_strlit("d84a5073d5108fce1774b375105dfdb13fe4e81c");
    reveal_strlit("BurntSushi");
    reveal_strlit("aho-corasick");
    reveal_strlit("-rs");
    reveal_strlit("_rs");
    let q = "aho-corasick"@;
    assert(text::ascii_lower_seq(q) =~= q);
    registry::lemma_plain_key(q, q);
    assert(!text::has_char(q, '/'));
    assert forall|i: int| !text::occurs_at(q, "-rs"@, i) by {
        if text::occurs_at(q, "-rs"@, i) {
            assert(q.subrange(i, i + 3)[0] == q[i]);
            assert(q.subrange(i, i + 3)[1] == q[i + 1]);
        }
    }
    assert forall|i: int| !text::occurs_at(q, "_rs"@, i) by {
        if text::occurs_at(q, "_rs"@, i) {
            assert(q.subrange(i, i + 3)[0] == q[i]);
        }
    }
    assert forall|i: int| 0 <= i < 5 implies registry::backbone()[i].0 != q by {
            if i == 0 {
                reveal_strlit("rlex");
                assert(registry::backbone()[i].0.len() != "aho-corasick"@.len());
            } else if i == 1 {
                reveal_strlit("git-lex");
                assert(registry::backbone()[i].0.len() != "aho-corasick"@.len());
            } else if i == 2 {
                reveal_strlit("actix");
                assert(registry::backbone()[i].0.len() != "aho-corasick"@.len());
            } else if i == 3 {
                reveal_strlit("actix-web");
                assert(registry::backbone()[i].0.len() != "aho-corasick"@.len());
            } else if i == 4 {
                reveal_strlit("regex");
                assert(registry::backbone()[i].0.len() != "aho-corasick"@.len());
            }
    }
    registry::lemma_resolve_by_alias(q, 5);
    registry::law_backbone_found_by_name(5);
    reveal_strlit("/");
    assert(registry::slash_join(registry::backbone()[5].1, registry::backbone()[5].2) =~= registry::slash_join(
        known_equivalences()[4].1,
        known_equivalences()[4].2,
    ));
}

proof fn lemma_table_row_resolves_5()
    ensures
        registry::resolve_spec(known_equivalences()[5].0, None) matches Some(x) && x.2 == known_equivalences()[5].4,
        registry::resolve_spec(known_equivalences()[5].2, None) matches Some(x) && x.2 == known_equivalences()[5].4,
        registry::resolve_spec(registry::slash_join(known_equivalences()[5].1, known_equivalences()[5].2), None) matches Some(x)
            && x.2 == known_equivalences()[5].4,
{
    reveal_strlit("memchr");
    reveal_strlit("BurntSushi");
    reveal_strlit("886ca4ca4820297191c6e9f7b023dc356f31a4d1");
    reveal_strlit("BurntSushi");
    reveal_strlit("memchr");
    reveal_strlit("-rs");
    reveal_strlit("_rs");
    let q = "memchr"@;
    assert(text::ascii_lower_seq(q) =~= q);
    registry::lemma_plain_key(q, q);
    assert(!text::has_char(q, '/'));
    assert forall|i: int| !text::occurs_at(q, "-rs"@, i) by {
        if text::occurs_at(q, "-rs"@, i) {
            assert(q.subrange(i, i + 3)[0] == q[i]);
            assert(q.subrange(i, i + 3)[1] == q[i + 1]);
        }
    }
    assert forall|i: int| !text::occurs_at(q, "_rs"@, i) by {
        if text::occurs_at(q, "_rs"@, i) {
            assert(q.subrange(i, i + 3)[0] == q[i]);
        }
    }
    assert forall|i: int| 0 <= i < 6 implies registry::backbone()[i].0 != q by {
            if i == 0 {
                reveal_strlit("rlex");
                assert(registry::backbone()[i].0.len() != "memchr"@.len());
            } else if i == 1 {
                reveal_strlit("git-lex");
                assert(registry::backbone()[i].0.len() != "memchr"@.len());
            } else if i == 2 {
                reveal_strlit("actix");
                assert(registry::backbone()[i].0.len() != "memchr"@.len());
            } else if i == 3 {
                reveal_strlit("actix-web");
                assert(registry::backbone()[i].0.len() != "memchr"@.len());
            } else if i == 4 {
                reveal_strlit("regex");
                assert(registry::backbone()[i].0.len() != "memchr"@.len());
            } else if i == 5 {
                reveal_strlit("aho-corasick");
                assert(registry::backbone()[i].0.len() != "memchr"@.len());
            }
    }
    registry::lemma_resolve_by_alias(q, 6);
    registry::law_backbone_found_by_name(6);
    reveal_strlit("/");
    assert(registry::slash_join(registry::backbone()[6].1, registry::backbone()[6].2) =~= registry::slash_join(
        known_equivalences()[5].1,
        known_equivalences()[5].2,
    ));
}

/// A commit that `resolve_canonical_sha` gives holds no `/` or `#`, and,
/// looked up again for the same package, gives itself.
proof fn lemma_canonical_stable(pkg_raw: Seq<char>, sha: Seq<char>)
    requires
        registry::normalized_query(pkg_raw).len() > 0,
        resolve_canonical_spec(pkg_raw, sha) is Some,
    ensures
        !text::has_char(resolve_canonical_spec(pkg_raw, sha)->0, '/'),
        !text::has_char(resolve_canonical_spec(pkg_raw, sha)->0, '#'),
        resolve_canonical_spec(pkg_raw, resolve_canonical_spec(pkg_raw, sha)->0) == resolve_canonical_spec(
            pkg_raw,
            sha,
        ),
{
    let pkg = registry::normalized_query(pkg_raw);
    let c = resolve_canonical_spec(pkg_raw, sha)->0;
    lemma_lockfiles_apart();
    law_equivalence_commits_are_hex();
    registry::law_backbone_commits_are_hex();
    let ap = |e: EquivalenceRow| equivalence_applies(pkg, sha, e);
    let ap2 = |e: EquivalenceRow| equivalence_applies(pkg, c, e);
    if text::any_where(known_equivalences(), ap) {
        text::lemma_first_where_holds(known_equivalences(), ap);
        let f = text::first_where(known_equivalences(), ap);
        assert(c == known_equivalences()[f].4);
        assert(text::is_hex_seq(known_equivalences()[f].4));
        text::lemma_hex_plain(c);
        assert(!text::any_where(known_equivalences(), ap2)) by {
            if text::any_where(known_equivalences(), ap2) {
                let g = choose|g: int| 0 <= g < known_equivalences().len() && ap2(known_equivalences()[g]);
                assert(known_equivalences()[f].4 != known_equivalences()[g].3);
            }
        }
        assert(pkg == known_equivalences()[f].0 || pkg == known_equivalences()[f].2 || pkg
            == registry::slash_join(known_equivalences()[f].1, known_equivalences()[f].2));
        assert(registry::resolve_spec(pkg, None) matches Some(x) && x.2 == c) by {
            if f == 0 {
                lemma_table_row_resolves_0();
            } else if f == 1 {
                lemma_table_row_resolves_1();
            } else if f == 2 {
                lemma_table_row_resolves_2();
            } else if f == 3 {
                lemma_table_row_resolves_3();
            } else if f == 4 {
                lemma_table_row_resolves_4();
            } else if f == 5 {
                lemma_table_row_resolves_5();
            }
        }
    } else {
        registry::lemma_resolved_commit_is_backbone(registry::normalized_query(pkg));
        let x = registry::resolve_spec(pkg, None)->0;
        assert(c == x.2);
        let k = choose|k: int| 0 <= k < registry::backbone().len() && x.2 == #[trigger] registry::backbone()[k].3;
        assert(text::is_hex_seq(registry::backbone()[k].3));
        text::lemma_hex_plain(c);
        assert(!text::any_where(known_equivalences(), ap2)) by {
            if text::any_where(known_equivalences(), ap2) {
                let g = choose|g: int| 0 <= g < known_equivalences().len() && ap2(known_equivalences()[g]);
                assert(registry::backbone()[k].3 != known_equivalences()[g].3);
            }
        }
    }
}

/// Canonicalizing an IRI that canonicalization produced changes nothing:
/// the canonical commit maps to itself. This holds for every call target
/// whose repository name, trimmed and lower-cased, is not empty (an empty
/// one matches table rows by commit alone, and the registry then resolves
/// it to another repository).
pub proof fn law_canonicalize_idempotent(iri: Seq<char>)
    requires
        parse_call_target_spec(iri) matches Some(p) ==> registry::normalized_query(p.1).len() > 0,
    ensures
        canonicalize_spec(canonicalize_spec(iri).0) == (canonicalize_spec(iri).0, None::<Seq<char>>),
{
    match parse_call_target_spec(iri) {
        None => {},
        Some(p) => {
            match resolve_canonical_spec(p.1, p.2) {
                None => {},
                Some(c) => {
                    if c != p.2 {
                        lemma_canonical_stable(p.1, p.2);
                        let short = text::starts_with_seq(text::trim_seq(iri), short_prefix());
                        law_rebuilt_iri_reparses(iri, p, short, c);
                    }
                },
            }
        },
    }
}

} // verus!
