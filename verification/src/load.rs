//! Loading cached N-Quads files: which files to read, which commit
//! directory a prefix names, how statements are counted, and when a load
//! has failed.
use vstd::prelude::*;
use crate::order;
use crate::text;

verus! {

/// Kind of a graph file by its name: gzipped N-Quads (`.nq.gz`), plain
/// N-Quads (`.nq`), or neither.
pub open spec fn nquads_kind_spec(name: Seq<char>) -> Option<bool> {
    if text::ends_with_seq(name, ".nq.gz"@) {
        Some(true)
    } else if text::ends_with_seq(name, ".nq"@) {
        Some(false)
    } else {
        None
    }
}

/// Whether a file is loaded, and whether it is gzipped.
pub fn nquads_kind(name: &str) -> (r: Option<bool>)
    ensures
        r == nquads_kind_spec(name@),
{
    if text::str_ends_with(name, ".nq.gz") {
        Some(true)
    } else if text::str_ends_with(name, ".nq") {
        Some(false)
    } else {
        None
    }
}

/// A line holds a statement when, leading whitespace removed, it is neither
/// empty nor a comment.
pub open spec fn is_statement_line_spec(line: Seq<char>) -> bool {
    let t = text::trim_start_seq(line);
    t.len() > 0 && t[0] != '#'
}

/// Whether a line of an N-Quads file holds a statement.
pub fn is_statement_line(line: &str) -> (r: bool)
    ensures
        r == is_statement_line_spec(line@),
{
    let v = text::chars_of(line);
    let t = text::trim_start_chars(&v);
    t.len() > 0 && t[0] != '#'
}

/// Number of statement lines in a sequence of lines.
pub open spec fn statement_count(lines: Seq<Seq<char>>) -> nat
    decreases lines.len(),
{
    if lines.len() == 0 {
        0
    } else {
        statement_count(lines.drop_last()) + if is_statement_line_spec(lines.last()) {
            1nat
        } else {
            0nat
        }
    }
}

/// A running count of the statements of a file, fed one line at a time.
pub struct StatementTally {
    pub count: u64,
    pub lines: Ghost<Seq<Seq<char>>>,
}

impl StatementTally {
    /// The count matches the lines seen so far.
    pub open spec fn wf(&self) -> bool {
        self.count == statement_count(self.lines@)
    }

    /// A tally that has seen no line.
    pub fn new() -> (t: StatementTally)
        ensures
            t.wf(),
            t.lines@ == Seq::<Seq<char>>::empty(),
            t.count == 0,
    {
        StatementTally { count: 0, lines: Ghost(Seq::empty()) }
    }

    /// Counts one more line.
    pub fn observe(&mut self, line: &str)
        requires
            old(self).wf(),
            old(self).count < u64::MAX,
        ensures
            final(self).wf(),
            final(self).lines@ == old(self).lines@.push(line@),
    {
        let hit = is_statement_line(line);
        let ghost prev = self.lines@;
        if hit {
            self.count = self.count + 1;
        }
        self.lines = Ghost(prev.push(line@));
        assert(self.lines@.drop_last() =~= prev);
    }
}

/// The first directory name that starts with the prefix, in the order the
/// directory listing gave them.
pub fn find_commit_dir(names: &Vec<String>, prefix: &str) -> (r: Result<String, String>)
    ensures
        match r {
            Ok(n) => {
                let p = |s: String| text::starts_with_seq(s@, prefix@);
                &&& text::any_where(names@, p)
                &&& n@ == names@[text::first_where(names@, p)]@
            },
            Err(m) => {
                &&& !text::any_where(names@, |s: String| text::starts_with_seq(s@, prefix@))
                &&& m@ == "No cached commit matching '"@ + prefix@ + "' found"@
            },
        },
{
    let ghost p = |s: String| text::starts_with_seq(s@, prefix@);
    let mut i: usize = 0;
    while i < names.len()
        invariant
            i <= names@.len(),
            p == (|s: String| text::starts_with_seq(s@, prefix@)),
            forall|j: int| 0 <= j < i ==> !p(#[trigger] names@[j]),
        decreases names.len() - i,
    {
        if text::str_starts_with(names[i].as_str(), prefix) {
            proof {
                assert(p(names@[i as int]));
                assert(text::is_first_where(names@, p, i as int));
                text::lemma_first_where(names@, p, i as int);
            }
            return Ok(names[i].clone());
        }
        i = i + 1;
    }
    let mut v = text::chars_of("No cached commit matching '");
    text::push_str(&mut v, prefix);
    text::push_str(&mut v, "' found");
    Err(text::string_from_chars(&v))
}

/// View of a list of names.
pub open spec fn names_view(v: Seq<String>) -> Seq<Seq<char>> {
    v.map_values(|s: String| s@)
}

/// Names in ascending order, each as often as it was given.
pub fn sort_names(v: &Vec<String>) -> (r: Vec<String>)
    ensures
        names_view(r@).to_multiset() == names_view(v@).to_multiset(),
        order::sorted_by(names_view(r@), |a: Seq<char>, b: Seq<char>| order::lex_le(a, b)),
{
    let ghost le = |a: Seq<char>, b: Seq<char>| order::lex_le(a, b);
    proof {
        order::lemma_lex_total_order();
    }
    let mut out: Vec<String> = Vec::new();
    let mut i: usize = 0;
    assert(names_view(v@.take(0)) =~= Seq::<Seq<char>>::empty());
    assert(names_view(out@) =~= Seq::<Seq<char>>::empty());
    while i < v.len()
        invariant
            i <= v@.len(),
            le == (|a: Seq<char>, b: Seq<char>| order::lex_le(a, b)),
            order::total_order(le),
            order::sorted_by(names_view(out@), le),
            names_view(out@).to_multiset() == names_view(v@.take(i as int)).to_multiset(),
        decreases v.len() - i,
    {
        let x = v[i].clone();
        let xc = text::chars_of(x.as_str());
        let ghost xv = x@;
        let ghost ov = names_view(out@);
        let mut pos: usize = 0;
        while pos < out.len() && name_le(&out[pos], &xc)
            invariant
                pos <= out@.len(),
                ov == names_view(out@),
                xc@ == xv,
                le == (|a: Seq<char>, b: Seq<char>| order::lex_le(a, b)),
                forall|k: int| 0 <= k < pos ==> #[trigger] le(ov[k], xv),
            decreases out.len() - pos,
        {
            assert(ov[pos as int] == out@[pos as int]@);
            pos = pos + 1;
        }
        proof {
            if pos < out.len() {
                assert(ov[pos as int] == out@[pos as int]@);
            }
            order::lemma_insert_sorted(ov, pos as int, xv, le);
            order::lemma_insert_multiset(ov, pos as int, xv);
            assert(names_view(v@.take(i + 1)) =~= names_view(v@.take(i as int)).push(xv));
            names_view(v@.take(i as int)).to_multiset_ensures();
        }
        out.insert(pos, x);
        assert(names_view(out@) =~= ov.insert(pos as int, xv));
        i = i + 1;
    }
    assert(v@.take(v@.len() as int) =~= v@);
    out
}

fn name_le(a: &String, b: &Vec<char>) -> (r: bool)
    ensures
        r == order::lex_le(a@, b@),
{
    let ac = text::chars_of(a.as_str());
    order::chars_le(&ac, b)
}

/// Outcome of loading the files of one commit: it fails only when some file
/// failed and none loaded.
pub open spec fn load_failed(files_loaded: nat, failures: nat) -> bool {
    failures > 0 && files_loaded == 0
}

/// Decides whether the load of a commit failed; the error names the
/// repository.
pub fn load_outcome(files_loaded: u32, failures: usize, org: &str, repo: &str) -> (r: Result<
    (),
    String,
>)
    ensures
        r is Err <==> load_failed(files_loaded as nat, failures as nat),
        r matches Err(m) ==> m@ == "no files loaded for "@ + org@ + "/"@ + repo@
            + " — every graph file failed to parse"@,
{
    if failures > 0 && files_loaded == 0 {
        let mut v = text::chars_of("no files loaded for ");
        text::push_str(&mut v, org);
        text::push_str(&mut v, "/");
        text::push_str(&mut v, repo);
        text::push_str(&mut v, " — every graph file failed to parse");
        Err(text::string_from_chars(&v))
    } else {
        Ok(())
    }
}


/// A file never has more statements than lines.
pub proof fn law_statement_count_bounded(lines: Seq<Seq<char>>)
    ensures
        statement_count(lines) <= lines.len(),
    decreases lines.len(),
{
    if lines.len() > 0 {
        law_statement_count_bounded(lines.drop_last());
    }
}

} // verus!
