//! Browsing the index from the command line: `org/repo` arguments, the
//! parse state of commits, searching repositories and summarising them.
use vstd::prelude::*;
use crate::index;
use crate::index::{GraphFile, TrackedCommit};
use crate::numbers;
use crate::order;
use crate::text;

verus! {

/// An `org/repo` argument split at its first slash.
pub open spec fn parse_repo_spec(s: Seq<char>) -> Option<(Seq<char>, Seq<char>)> {
    text::split_once_seq(s, '/')
}

/// Splits an `org/repo` argument at its first slash; without a slash it is
/// an error with its message.
pub fn parse_repo(s: &str) -> (r: Result<(String, String), String>)
    ensures
        match r {
            Ok((o, n)) => parse_repo_spec(s@) == Some((o@, n@)),
            Err(m) => parse_repo_spec(s@) is None && m@ == "Expected org/repo format, got '"@ + s@
                + "'"@,
        },
{
    let v = text::chars_of(s);
    match text::split_once_chars(&v, '/') {
        Some((a, b)) => Ok((text::string_from_chars(&a), text::string_from_chars(&b))),
        None => {
            let mut m = text::chars_of("Expected org/repo format, got '");
            text::push_str(&mut m, s);
            text::push_str(&mut m, "'");
            Err(text::string_from_chars(&m))
        },
    }
}

/// Parse states counted as parsed when browsing.
pub open spec fn is_parsed_status_spec(status: Seq<char>) -> bool {
    status == "parsed"@ || status == "ast_complete"@ || status == "enrich_complete"@
}

/// Whether a parse state counts as parsed.
pub fn is_parsed_status(status: &str) -> (r: bool)
    ensures
        r == is_parsed_status_spec(status@),
{
    text::str_eq(status, "parsed") || text::str_eq(status, "ast_complete") || text::str_eq(
        status,
        "enrich_complete",
    )
}

/// A commit counted as parsed.
pub open spec fn commit_parsed(c: TrackedCommit) -> bool {
    is_parsed_status_spec(c.parse_status@)
}

fn copy_commit(c: &TrackedCommit) -> (r: TrackedCommit)
    ensures
        index::tracked_view(r) == index::tracked_view(*c),
{
    c.clone()
}

/// View of a list of commits.
pub open spec fn commits_view(v: Seq<TrackedCommit>) -> Seq<index::TrackedView> {
    v.map_values(|c: TrackedCommit| index::tracked_view(c))
}

/// The commits counted as parsed (`want`) or as pending (`!want`), in order.
pub fn commits_with_state(commits: &Vec<TrackedCommit>, want: bool) -> (r: Vec<TrackedCommit>)
    ensures
        commits_view(r@) == commits_view(
            commits@.filter(|c: TrackedCommit| commit_parsed(c) == want),
        ),
{
    let ghost p = |c: TrackedCommit| commit_parsed(c) == want;
    let mut out: Vec<TrackedCommit> = Vec::new();
    let mut i: usize = 0;
    assert(commits@.take(0).filter(p) =~= Seq::<TrackedCommit>::empty()) by {
        reveal_with_fuel(Seq::filter, 1);
    }
    while i < commits.len()
        invariant
            i <= commits@.len(),
            p == (|c: TrackedCommit| commit_parsed(c) == want),
            commits_view(out@) == commits_view(commits@.take(i as int).filter(p)),
        decreases commits.len() - i,
    {
        let c = &commits[i];
        proof {
            reveal_with_fuel(Seq::filter, 1);
            assert(commits@.take(i + 1).drop_last() =~= commits@.take(i as int));
            assert(commits@.take(i + 1).last() == commits@[i as int]);
        }
        if is_parsed_status(c.parse_status.as_str()) == want {
            let ghost o = out@;
            let ghost f = commits@.take(i as int).filter(p);
            out.push(copy_commit(c));
            assert(commits_view(out@) =~= commits_view(o).push(index::tracked_view(*c)));
            assert(commits_view(f.push(*c)) =~= commits_view(f).push(index::tracked_view(*c)));
        }
        i = i + 1;
    }
    assert(commits@.take(commits@.len() as int) =~= commits@);
    out
}

/// Number of commits counted as parsed.
pub fn count_parsed(commits: &Vec<TrackedCommit>) -> (n: usize)
    ensures
        n == commits@.filter(|c: TrackedCommit| commit_parsed(c)).len(),
{
    let ghost p = |c: TrackedCommit| commit_parsed(c);
    let mut n: usize = 0;
    let mut i: usize = 0;
    assert(commits@.take(0).filter(p) =~= Seq::<TrackedCommit>::empty()) by {
        reveal_with_fuel(Seq::filter, 1);
    }
    while i < commits.len()
        invariant
            i <= commits@.len(),
            p == (|c: TrackedCommit| commit_parsed(c)),
            n == commits@.take(i as int).filter(p).len(),
        decreases commits.len() - i,
    {
        proof {
            reveal_with_fuel(Seq::filter, 1);
            assert(commits@.take(i + 1).drop_last() =~= commits@.take(i as int));
            assert(commits@.take(i + 1).last() == commits@[i as int]);
            commits@.take(i as int).lemma_filter_len(p);
        }
        if is_parsed_status(commits[i].parse_status.as_str()) {
            n = n + 1;
        }
        i = i + 1;
    }
    assert(commits@.take(commits@.len() as int) =~= commits@);
    n
}

/// Order of optional parse times: no time first, then by text.
pub open spec fn opt_time_le(a: Option<Seq<char>>, b: Option<Seq<char>>) -> bool {
    match (a, b) {
        (None, _) => true,
        (Some(_), None) => false,
        (Some(x), Some(y)) => order::lex_le(x, y),
    }
}

/// Order of commits by parse time.
pub open spec fn by_parse_time(a: index::TrackedView, b: index::TrackedView) -> bool {
    opt_time_le(a.4, b.4)
}

proof fn lemma_parse_time_total_order()
    ensures
        order::total_order(|a: index::TrackedView, b: index::TrackedView| by_parse_time(a, b)),
{
    assert forall|a: index::TrackedView, b: index::TrackedView|
        by_parse_time(a, b) || by_parse_time(b, a) by {
        if a.4 is Some && b.4 is Some {
            order::lemma_lex_total(a.4->0, b.4->0);
        }
    }
    assert forall|a: index::TrackedView, b: index::TrackedView, c: index::TrackedView|
        by_parse_time(a, b) && by_parse_time(b, c) implies by_parse_time(a, c) by {
        if a.4 is Some && b.4 is Some && c.4 is Some {
            order::lemma_lex_trans(a.4->0, b.4->0, c.4->0);
        }
    }
}

fn time_le(a: &TrackedCommit, b: &TrackedCommit) -> (r: bool)
    ensures
        r == by_parse_time(index::tracked_view(*a), index::tracked_view(*b)),
{
    match (&a.parsed_at, &b.parsed_at) {
        (None, _) => true,
        (Some(_), None) => false,
        (Some(x), Some(y)) => {
            let xc = text::chars_of(x.as_str());
            let yc = text::chars_of(y.as_str());
            order::chars_le(&xc, &yc)
        },
    }
}

/// The commits ordered by parse time (commits without one first), each as
/// often as it was given.
pub fn sort_by_parse_time(v: &Vec<TrackedCommit>) -> (r: Vec<TrackedCommit>)
    ensures
        commits_view(r@).to_multiset() == commits_view(v@).to_multiset(),
        order::sorted_by(
            commits_view(r@),
            |a: index::TrackedView, b: index::TrackedView| by_parse_time(a, b),
        ),
{
    let ghost le = |a: index::TrackedView, b: index::TrackedView| by_parse_time(a, b);
    proof {
        lemma_parse_time_total_order();
    }
    let mut out: Vec<TrackedCommit> = Vec::new();
    let mut i: usize = 0;
    assert(commits_view(v@.take(0)) =~= Seq::<index::TrackedView>::empty());
    assert(commits_view(out@) =~= Seq::<index::TrackedView>::empty());
    while i < v.len()
        invariant
            i <= v@.len(),
            le == (|a: index::TrackedView, b: index::TrackedView| by_parse_time(a, b)),
            order::total_order(le),
            order::sorted_by(commits_view(out@), le),
            commits_view(out@).to_multiset() == commits_view(v@.take(i as int)).to_multiset(),
        decreases v.len() - i,
    {
        let x = copy_commit(&v[i]);
        let ghost xv = index::tracked_view(x);
        let ghost ov = commits_view(out@);
        let mut pos: usize = 0;
        while pos < out.len() && time_le(&out[pos], &x)
            invariant
                pos <= out@.len(),
                ov == commits_view(out@),
                xv == index::tracked_view(x),
                le == (|a: index::TrackedView, b: index::TrackedView| by_parse_time(a, b)),
                forall|k: int| 0 <= k < pos ==> #[trigger] le(ov[k], xv),
            decreases out.len() - pos,
        {
            assert(ov[pos as int] == index::tracked_view(out@[pos as int]));
            pos = pos + 1;
        }
        proof {
            if pos < out.len() {
                assert(ov[pos as int] == index::tracked_view(out@[pos as int]));
            }
            order::lemma_insert_sorted(ov, pos as int, xv, le);
            order::lemma_insert_multiset(ov, pos as int, xv);
            assert(commits_view(v@.take(i + 1)) =~= commits_view(v@.take(i as int)).push(
                index::tracked_view(v@[i as int]),
            ));
            commits_view(v@.take(i as int)).to_multiset_ensures();
        }
        out.insert(pos, x);
        assert(commits_view(out@) =~= ov.insert(pos as int, xv));
        i = i + 1;
    }
    assert(v@.take(v@.len() as int) =~= v@);
    out
}

/// A repository matches a lower-cased search text when its `org/repo`
/// name, its org or its name, lower-cased, contains it.
pub open spec fn repo_matches_spec(org: Seq<char>, repo: Seq<char>, search: Seq<char>) -> bool {
    ||| text::contains_seq(text::lower(org + "/"@ + repo), search)
    ||| text::contains_seq(text::lower(org), search)
    ||| text::contains_seq(text::lower(repo), search)
}

fn lower_chars(s: &str) -> (r: Vec<char>)
    ensures
        r@ == text::lower(s@),
{
    let l = text::to_lower(s);
    text::chars_of(l.as_str())
}

/// Whether a repository matches a lower-cased search text.
pub fn repo_matches(org: &str, repo: &str, search: &Vec<char>) -> (r: bool)
    ensures
        r == repo_matches_spec(org@, repo@, search@),
{
    let mut full = text::chars_of(org);
    text::push_str(&mut full, "/");
    text::push_str(&mut full, repo);
    let fs = text::string_from_chars(&full);
    let fl = lower_chars(fs.as_str());
    let ol = lower_chars(org);
    let rl = lower_chars(repo);
    text::contains_chars(&fl, search) || text::contains_chars(&ol, search) || text::contains_chars(
        &rl,
        search,
    )
}

/// The repositories that match a query, searched lower-cased, in order.
pub fn search_repos(all: &Vec<(String, String)>, query: &str) -> (r: Vec<(String, String)>)
    ensures
        index::name_pairs_view(r@) == index::name_pairs_view(all@).filter(
            |p: (Seq<char>, Seq<char>)| repo_matches_spec(p.0, p.1, text::lower(query@)),
        ),
{
    let search = lower_chars(query);
    let ghost p = |p: (Seq<char>, Seq<char>)| repo_matches_spec(p.0, p.1, text::lower(query@));
    let ghost av = index::name_pairs_view(all@);
    let mut out: Vec<(String, String)> = Vec::new();
    let mut i: usize = 0;
    assert(av.take(0).filter(p) =~= Seq::<(Seq<char>, Seq<char>)>::empty()) by {
        reveal_with_fuel(Seq::filter, 1);
    }
    while i < all.len()
        invariant
            i <= all@.len(),
            av == index::name_pairs_view(all@),
            search@ == text::lower(query@),
            p == (|p: (Seq<char>, Seq<char>)| repo_matches_spec(p.0, p.1, text::lower(query@))),
            index::name_pairs_view(out@) == av.take(i as int).filter(p),
        decreases all.len() - i,
    {
        let e = &all[i];
        proof {
            reveal_with_fuel(Seq::filter, 1);
            assert(av.take(i + 1).drop_last() =~= av.take(i as int));
            assert(av.take(i + 1).last() == index::name_pair_view(*e));
        }
        if repo_matches(e.0.as_str(), e.1.as_str(), &search) {
            let ghost o = out@;
            out.push((e.0.clone(), e.1.clone()));
            assert(index::name_pairs_view(out@) =~= index::name_pairs_view(o).push(
                index::name_pair_view(*e),
            ));
        }
        i = i + 1;
    }
    assert(av.take(all@.len() as int) =~= av);
    out
}

/// Sum of the sizes of graph files.
pub open spec fn total_size(files: Seq<GraphFile>) -> nat
    decreases files.len(),
{
    if files.len() == 0 {
        0
    } else {
        total_size(files.drop_last()) + files.last().graph_file_size as nat
    }
}

/// Total size of the graph files of a commit.
pub fn graph_files_total(files: &Vec<GraphFile>) -> (t: u64)
    requires
        total_size(files@) <= u64::MAX,
    ensures
        t == total_size(files@),
{
    let mut t: u64 = 0;
    let mut i: usize = 0;
    while i < files.len()
        invariant
            i <= files@.len(),
            total_size(files@) <= u64::MAX,
            t == total_size(files@.take(i as int)),
        decreases files.len() - i,
    {
        proof {
            assert(files@.take(i + 1).drop_last() =~= files@.take(i as int));
            lemma_total_size_prefix(files@, i + 1);
        }
        t = t + files[i].graph_file_size;
        i = i + 1;
    }
    assert(files@.take(files@.len() as int) =~= files@);
    t
}

proof fn lemma_total_size_prefix(s: Seq<GraphFile>, k: int)
    requires
        0 <= k <= s.len(),
    ensures
        total_size(s.take(k)) <= total_size(s),
    decreases s.len() - k,
{
    if k < s.len() {
        lemma_total_size_prefix(s, k + 1);
        assert(s.take(k + 1).drop_last() =~= s.take(k));
    } else {
        assert(s.take(k) =~= s);
    }
}

/// The graph types of a commit's files, joined with `, `.
pub fn graph_types_joined(files: &Vec<GraphFile>) -> (r: String)
    ensures
        r@ == text::join_seq(files@.map_values(|g: GraphFile| g.graph_type@), ", "@),
{
    let mut names: Vec<String> = Vec::new();
    let mut i: usize = 0;
    while i < files.len()
        invariant
            i <= files@.len(),
            names@.map_values(|s: String| s@) == files@.take(i as int).map_values(
                |g: GraphFile| g.graph_type@,
            ),
        decreases files.len() - i,
    {
        let ghost o = names@;
        names.push(files[i].graph_type.clone());
        assert(names@.map_values(|s: String| s@) =~= o.map_values(|s: String| s@).push(
            files@[i as int].graph_type@,
        ));
        assert(files@.take(i + 1).map_values(|g: GraphFile| g.graph_type@) =~= files@.take(
            i as int,
        ).map_values(|g: GraphFile| g.graph_type@).push(files@[i as int].graph_type@));
        i = i + 1;
    }
    assert(files@.take(files@.len() as int) =~= files@);
    text::join_strings(&names, ", ")
}

/// The summary shown beside a repository: `  ({parsed}/{total} parsed)`,
/// followed by ` [cached]` when it is cached.
pub open spec fn repo_summary_spec(parsed: nat, total: nat, cached: bool) -> Seq<char> {
    "  ("@ + numbers::decimal(parsed) + "/"@ + numbers::decimal(total) + " parsed)"@ + if cached {
        " [cached]"@
    } else {
        Seq::empty()
    }
}

/// Writes the summary of a repository.
pub fn repo_summary(parsed: usize, total: usize, cached: bool) -> (r: String)
    ensures
        r@ == repo_summary_spec(parsed as nat, total as nat, cached),
{
    let mut v = text::chars_of("  (");
    let p = numbers::decimal_chars(parsed as u64);
    text::push_all(&mut v, &p);
    text::push_str(&mut v, "/");
    let t = numbers::decimal_chars(total as u64);
    text::push_all(&mut v, &t);
    text::push_str(&mut v, " parsed)");
    if cached {
        text::push_str(&mut v, " [cached]");
    } else {
        assert(v@ + Seq::<char>::empty() =~= v@);
    }
    text::string_from_chars(&v)
}

} // verus!
