//! SPARQL query linter: flags query shapes that force a sequential scan of
//! the whole store (string filters or open triple patterns that no named
//! graph bounds).
use vstd::prelude::*;
use vstd::utf8::encode_utf8;
use vstd::string::StringSliceAdditionalSpecFns;
use crate::text;

verus! {

/// Kinds of scan hazard.
#[derive(Debug, Clone, Copy, PartialEq, Eq)]
pub enum HazardKind {
    /// FILTER(CONTAINS(...)) or FILTER(REGEX(...)) without an exact named GRAPH <iri>
    UnanchoredStringFilter,
    /// Open triple pattern ?s ?p ?o without indexed predicates or graph boundaries
    UnboundedWildcardScan,
}

/// A detected hazard with its explanation and advice.
#[derive(Debug, Clone)]
pub struct ScanHazard {
    pub kind: HazardKind,
    pub message: String,
    pub suggestion: String,
}

/// The pattern `\?\w+\s+\?\w+\s+\?\w+\s*\.` (three variables and a dot)
/// matches somewhere in the text, by the `regex` crate's Unicode classes.
pub uninterp spec fn wildcard_triple_match(text: Seq<char>) -> bool;

/// Compiles the fixed pattern `\?\w+\s+\?\w+\s+\?\w+\s*\.` with
/// `regex::Regex::new` and asks `Regex::is_match` whether it matches the
/// text. What the `\w` and `\s` classes accept is Unicode data that is not
/// written out here: the answer is named `wildcard_triple_match`. Were the
/// pattern ever refused, the answer would be `false`, as the caller expects.
#[verifier::external_body]
fn check_unbounded_wildcard(sparql: &str) -> (r: bool)
    ensures
        r == wildcard_triple_match(sparql@),
{
    match regex::Regex::new(r"\?\w+\s+\?\w+\s+\?\w+\s*\.") {
        Ok(re) => re.is_match(sparql),
        Err(_) => false,
    }
}

// ---------------------------------------------------------------------------
// Lines
// ---------------------------------------------------------------------------

/// A line without the `\r` that ends it, if any.
pub open spec fn strip_cr(l: Seq<char>) -> Seq<char> {
    if l.len() > 0 && l.last() == '\r' {
        l.drop_last()
    } else {
        l
    }
}

/// `str::lines`: pieces split at `\n`, each without a `\r` right before its
/// `\n`; a final line ending adds no empty line.
pub open spec fn lines_seq(s: Seq<char>) -> Seq<Seq<char>>
    decreases s.len(),
{
    if s.len() == 0 {
        Seq::empty()
    } else if text::has_char(s, '\n') {
        let i = text::first_index_of(s, '\n');
        if 0 <= i < s.len() {
            seq![strip_cr(s.take(i))] + lines_seq(s.skip(i + 1))
        } else {
            seq![s]
        }
    } else {
        seq![s]
    }
}

/// An upper-cased, trimmed line anchors the query to a named graph: it
/// starts with `GRAPH <`, `FROM <` or `FROM NAMED <`, or holds `GRAPH <`
/// with a `>` somewhere after it.
pub open spec fn upper_line_anchored(u: Seq<char>) -> bool {
    ||| text::starts_with_seq(u, "GRAPH <"@)
    ||| text::starts_with_seq(u, "FROM <"@)
    ||| text::starts_with_seq(u, "FROM NAMED <"@)
    ||| exists|i: int, p: int|
        #![trigger text::occurs_at(u, "GRAPH <"@, i), u[p]]
        text::occurs_at(u, "GRAPH <"@, i) && i <= p < u.len() && u[p] == '>'
}

/// A line anchors the query: its trimmed, upper-cased text does.
pub open spec fn line_anchor(line: Seq<char>) -> bool {
    upper_line_anchored(text::upper(text::trim_seq(line)))
}

/// Whether a query is anchored to an exact named graph: one of its lines
/// anchors it.
pub open spec fn bound_graph_spec(sparql: Seq<char>) -> bool {
    let ls = lines_seq(sparql);
    exists|k: int| 0 <= k < ls.len() && line_anchor(#[trigger] ls[k])
}

fn lines_of(s: &Vec<char>) -> (r: Vec<Vec<char>>)
    ensures
        r@.map_values(|x: Vec<char>| x@) == lines_seq(s@),
{
    let mut out: Vec<Vec<char>> = Vec::new();
    let mut rest = text::slice_chars(s, 0, s.len());
    assert(rest@ =~= s@);
    while rest.len() > 0
        invariant
            out@.map_values(|x: Vec<char>| x@) + lines_seq(rest@) == lines_seq(s@),
        decreases rest.len(),
    {
        match text::find_char(&rest, '\n') {
            None => {
                let ghost o = out@;
                assert(lines_seq(rest@) == seq![rest@]);
                let piece = text::slice_chars(&rest, 0, rest.len());
                assert(piece@ =~= rest@);
                out.push(piece);
                assert(out@.map_values(|x: Vec<char>| x@) =~= o.map_values(|x: Vec<char>| x@).push(
                    rest@,
                ));
                rest = Vec::new();
                assert(lines_seq(rest@) =~= Seq::<Seq<char>>::empty());
            },
            Some(i) => {
                let end = if i > 0 && rest[i - 1] == '\r' {
                    i - 1
                } else {
                    i
                };
                let piece = text::slice_chars(&rest, 0, end);
                let tail = text::slice_chars(&rest, i + 1, rest.len());
                proof {
                    assert(piece@ =~= strip_cr(rest@.take(i as int)));
                    assert(tail@ =~= rest@.skip(i + 1));
                    assert(lines_seq(rest@) == seq![piece@] + lines_seq(tail@));
                }
                let ghost o = out@;
                out.push(piece);
                assert(out@.map_values(|x: Vec<char>| x@) =~= o.map_values(|x: Vec<char>| x@).push(
                    piece@,
                ));
                rest = tail;
            },
        }
    }
    assert(lines_seq(rest@) =~= Seq::<Seq<char>>::empty());
    assert(out@.map_values(|x: Vec<char>| x@) + Seq::<Seq<char>>::empty() =~= out@.map_values(
        |x: Vec<char>| x@,
    ));
    out
}

/// Whether an upper-cased, trimmed line anchors the query, as
/// [`upper_line_anchored`] says.
#[verifier::loop_isolation(false)]
pub fn anchors_upper_line(u: &str) -> (r: bool)
    ensures
        r == upper_line_anchored(u@),
{
    let c = text::chars_of(u);
    let g = text::chars_of("GRAPH <");
    let f = text::chars_of("FROM <");
    let fn_ = text::chars_of("FROM NAMED <");
    if text::matches_at(&c, &g, 0) || text::matches_at(&c, &f, 0) || text::matches_at(&c, &fn_, 0) {
        return true;
    }
    let n = c.len();
    let mut i: usize = 0;
    while i < n
        invariant
            i <= n,
            n == c@.len(),
            c@ == u@,
            g@ == "GRAPH <"@,
            forall|j: int| 0 <= j < i ==> !text::occurs_at(u@, "GRAPH <"@, j),
        decreases n - i,
    {
        if text::matches_at(&c, &g, i) {
            let mut p: usize = i;
            while p < n
                invariant
                    i <= p <= n,
                    n == c@.len(),
                    c@ == u@,
                    forall|q: int| i <= q < p ==> u@[q] != '>',
                decreases n - p,
            {
                if c[p] == '>' {
                    assert(text::occurs_at(u@, "GRAPH <"@, i as int) && u@[p as int] == '>');
                    return true;
                }
                p = p + 1;
            }
            assert forall|j: int, q: int|
                text::occurs_at(u@, "GRAPH <"@, j) && j <= q < u@.len() implies u@[q] != '>' by {
                assert(j >= i);
            }
            return false;
        }
        i = i + 1;
    }
    assert forall|j: int, q: int|
        text::occurs_at(u@, "GRAPH <"@, j) && j <= q < u@.len() implies u@[q] != '>' by {
        assert(j < i);
    }
    false
}

fn line_anchored(line: &Vec<char>) -> (r: bool)
    ensures
        r == line_anchor(line@),
{
    let t = text::trim_chars(line);
    let ts = text::string_from_chars(&t);
    let us = text::to_upper(ts.as_str());
    anchors_upper_line(us.as_str())
}

/// Whether the query is anchored to an exact named graph: a line that
/// starts (ignoring case) with `GRAPH <`, `FROM <` or `FROM NAMED <`, or
/// holds `GRAPH <` with a later `>`.
pub fn check_has_bound_graph(sparql: &str) -> (r: bool)
    ensures
        r == bound_graph_spec(sparql@),
{
    let s = text::chars_of(sparql);
    let lines = lines_of(&s);
    let ghost ls = lines@.map_values(|x: Vec<char>| x@);
    let mut i: usize = 0;
    while i < lines.len()
        invariant
            i <= lines@.len(),
            ls == lines@.map_values(|x: Vec<char>| x@),
            ls == lines_seq(sparql@),
            forall|k: int| 0 <= k < i ==> !line_anchor(#[trigger] ls[k]),
        decreases lines.len() - i,
    {
        let a = line_anchored(&lines[i]);
        assert(ls[i as int] == lines@[i as int]@);
        if a {
            return true;
        }
        i = i + 1;
    }
    false
}


/// Message of an unanchored string filter.
pub const UNANCHORED_MESSAGE: &'static str = "Unanchored string filter detected (The CONTAINS / REGEX trap)";

/// Advice for an unanchored string filter.
pub const UNANCHORED_SUGGESTION: &'static str = "Anchor the pattern to an exact named graph: GRAPH <https://repolex.ai/r/org/repo/graph_type/commit> { ... } or bind the predicate (e.g. lx:externalPackage) to avoid a full 118M+ quad scan (30s+ vs 1.15ms).";

/// Message of an unbounded wildcard scan.
pub const WILDCARD_MESSAGE: &'static str = "Unbounded wildcard triple scan (?s ?p ?o) without graph boundaries";

/// Advice for an unbounded wildcard scan.
pub const WILDCARD_SUGGESTION: &'static str = "Wrap patterns inside a specific GRAPH <iri> or bind the predicate to an indexed term (e.g. lx:callTarget, rdf:type) to leverage RocksDB index blocks.";

/// Kind, message and advice of a hazard.
pub open spec fn hazard_view(h: ScanHazard) -> (HazardKind, Seq<char>, Seq<char>) {
    (h.kind, h.message@, h.suggestion@)
}

/// The hazard reported for a kind.
pub open spec fn hazard_of(kind: HazardKind) -> (HazardKind, Seq<char>, Seq<char>) {
    match kind {
        HazardKind::UnanchoredStringFilter => (kind, UNANCHORED_MESSAGE@, UNANCHORED_SUGGESTION@),
        HazardKind::UnboundedWildcardScan => (kind, WILDCARD_MESSAGE@, WILDCARD_SUGGESTION@),
    }
}

/// An upper-cased query holds `FILTER` and one of `CONTAINS`, `REGEX`,
/// `STRSTARTS`, `STRENDS`.
pub open spec fn string_filter_in(u: Seq<char>) -> bool {
    &&& text::contains_seq(u, "FILTER"@)
    &&& (text::contains_seq(u, "CONTAINS"@) || text::contains_seq(u, "REGEX"@)
        || text::contains_seq(u, "STRSTARTS"@) || text::contains_seq(u, "STRENDS"@))
}

/// The upper-cased query holds a string filter.
pub open spec fn string_filter_present(sparql: Seq<char>) -> bool {
    string_filter_in(text::upper(sparql))
}

/// Hazards from what the scan found: an unanchored string filter first,
/// then an unbounded wildcard scan; none at all when the query is anchored.
pub open spec fn hazards_spec(filter: bool, anchored: bool, wildcard: bool) -> Seq<
    (HazardKind, Seq<char>, Seq<char>),
> {
    (if filter && !anchored {
        seq![hazard_of(HazardKind::UnanchoredStringFilter)]
    } else {
        Seq::empty()
    }) + (if wildcard && !anchored {
        seq![hazard_of(HazardKind::UnboundedWildcardScan)]
    } else {
        Seq::empty()
    })
}

/// Hazards of a query, given whether it is anchored and whether it holds an
/// open triple pattern.
pub open spec fn lint_spec(sparql: Seq<char>, anchored: bool, wildcard: bool) -> Seq<
    (HazardKind, Seq<char>, Seq<char>),
> {
    hazards_spec(string_filter_present(sparql), anchored, wildcard)
}

fn make_hazard(kind: HazardKind) -> (h: ScanHazard)
    ensures
        hazard_view(h) == hazard_of(kind),
{
    match kind {
        HazardKind::UnanchoredStringFilter => ScanHazard {
            kind,
            message: UNANCHORED_MESSAGE.to_owned(),
            suggestion: UNANCHORED_SUGGESTION.to_owned(),
        },
        HazardKind::UnboundedWildcardScan => ScanHazard {
            kind,
            message: WILDCARD_MESSAGE.to_owned(),
            suggestion: WILDCARD_SUGGESTION.to_owned(),
        },
    }
}

fn has(s: &Vec<char>, p: &str) -> (r: bool)
    ensures
        r == text::contains_seq(s@, p@),
{
    let pv = text::chars_of(p);
    text::contains_chars(s, &pv)
}

/// The hazards of a query from its upper-cased text, whether it is
/// anchored, and whether the open-triple pattern matched it.
pub fn hazards_from_upper(upper_query: &str, anchored: bool, wildcard: bool) -> (r: Vec<ScanHazard>)
    ensures
        r@.map_values(|h: ScanHazard| hazard_view(h)) == hazards_spec(
            string_filter_in(upper_query@),
            anchored,
            wildcard,
        ),
{
    let mut hazards: Vec<ScanHazard> = Vec::new();
    let upper = text::chars_of(upper_query);
    let has_string_filter = has(&upper, "FILTER") && (has(&upper, "CONTAINS") || has(
        &upper,
        "REGEX",
    ) || has(&upper, "STRSTARTS") || has(&upper, "STRENDS"));
    if has_string_filter && !anchored {
        hazards.push(make_hazard(HazardKind::UnanchoredStringFilter));
    }
    if wildcard && !anchored {
        hazards.push(make_hazard(HazardKind::UnboundedWildcardScan));
    }
    assert(hazards@.map_values(|h: ScanHazard| hazard_view(h)) =~= hazards_spec(
        string_filter_in(upper_query@),
        anchored,
        wildcard,
    ));
    hazards
}

/// The hazards of a query, given whether the open-triple pattern matched it.
pub fn lint_query_with(sparql: &str, has_unbounded_wildcard: bool) -> (r: Vec<ScanHazard>)
    ensures
        r@.map_values(|h: ScanHazard| hazard_view(h)) == lint_spec(
            sparql@,
            bound_graph_spec(sparql@),
            has_unbounded_wildcard,
        ),
{
    let us = text::to_upper(sparql);
    let has_bound_graph = check_has_bound_graph(sparql);
    hazards_from_upper(us.as_str(), has_bound_graph, has_unbounded_wildcard)
}

/// Analyze a SPARQL query string for hazards that force sequential full-store scans.
pub fn lint_query(sparql: &str) -> (r: Vec<ScanHazard>)
    ensures
        r@.map_values(|h: ScanHazard| hazard_view(h)) == lint_spec(
            sparql@,
            bound_graph_spec(sparql@),
            wildcard_triple_match(sparql@),
        ),
{
    let w = check_unbounded_wildcard(sparql);
    lint_query_with(sparql, w)
}


/// Cut `text` to `max_len` bytes, the last three of them an ellipsis.
pub fn wrap_text(text: &str, max_len: usize) -> (r: String)
    requires
        encode_utf8(text@).len() > max_len ==> max_len >= 3 && vstd::utf8::is_char_boundary(
            encode_utf8(text@),
            max_len - 3,
        ),
    ensures
        encode_utf8(text@).len() <= max_len ==> r@ == text@,
        encode_utf8(text@).len() > max_len ==> encode_utf8(r@) == encode_utf8(text@).take(
            max_len - 3,
        ) + encode_utf8("..."@),
{
    if text.as_bytes().len() <= max_len {
        text.to_owned()
    } else {
        let (head, _tail) = text.split_at(max_len - 3);
        let mut v = text::chars_of(head);
        text::push_str(&mut v, "...");
        proof {
            text::lemma_encode_utf8_append(head@, "..."@);
            assert(head.spec_bytes() =~= encode_utf8(text@).take(max_len - 3));
        }
        text::string_from_chars(&v)
    }
}


/// A query anchored to a named graph is never flagged, whatever patterns
/// it holds.
pub proof fn law_anchored_query_is_clean(sparql: Seq<char>, wildcard: bool)
    ensures
        lint_spec(sparql, true, wildcard).len() == 0,
{
    assert(lint_spec(sparql, true, wildcard) =~= Seq::<(HazardKind, Seq<char>, Seq<char>)>::empty());
}

/// A line that sits between two line breaks is one of the lines of a text.
pub proof fn lemma_line_between(h: Seq<char>, l: Seq<char>, t: Seq<char>)
    requires
        !text::has_char(l, '\n'),
    ensures
        exists|k: int|
            0 <= k < lines_seq(h + seq!['\n'] + l + seq!['\n'] + t).len() && #[trigger] lines_seq(
                h + seq!['\n'] + l + seq!['\n'] + t,
            )[k] == strip_cr(l),
    decreases h.len(),
{
    let s = h + seq!['\n'] + l + seq!['\n'] + t;
    if text::has_char(h, '\n') {
        let i0 = choose|i: int| 0 <= i < h.len() && h[i] == '\n';
        text::lemma_exists_first_index(h, '\n', i0);
        let i = text::first_index_of(h, '\n');
        assert(text::is_first_index(h, '\n', i));
        assert(text::is_first_index(s, '\n', i)) by {
            assert forall|j: int| 0 <= j < i implies s[j] != '\n' by {
                assert(s[j] == h[j]);
            }
        }
        text::lemma_first_index_at(s, '\n', i);
        let h2 = h.skip(i + 1);
        assert(s.skip(i + 1) =~= h2 + seq!['\n'] + l + seq!['\n'] + t);
        lemma_line_between(h2, l, t);
        let rest = lines_seq(h2 + seq!['\n'] + l + seq!['\n'] + t);
        let k = choose|k: int| 0 <= k < rest.len() && #[trigger] rest[k] == strip_cr(l);
        assert(lines_seq(s) == seq![strip_cr(s.take(i))] + rest);
        assert(lines_seq(s)[k + 1] == rest[k]);
    } else {
        let i = h.len() as int;
        assert(text::is_first_index(s, '\n', i)) by {
            assert forall|j: int| 0 <= j < i implies s[j] != '\n' by {
                assert(s[j] == h[j]);
            }
        }
        text::lemma_first_index_at(s, '\n', i);
        let s2 = l + seq!['\n'] + t;
        assert(s.skip(i + 1) =~= s2);
        let j = l.len() as int;
        assert(text::is_first_index(s2, '\n', j)) by {
            assert forall|q: int| 0 <= q < j implies s2[q] != '\n' by {
                assert(s2[q] == l[q]);
            }
        }
        text::lemma_first_index_at(s2, '\n', j);
        assert(s2.take(j) =~= l);
        assert(lines_seq(s2)[0] == strip_cr(l));
        assert(lines_seq(s) == seq![strip_cr(s.take(i))] + lines_seq(s2));
        assert(lines_seq(s)[1] == strip_cr(l));
    }
}

/// A line of two spaces and an ASCII text that starts with `GRAPH <` and
/// ends with `{` anchors a query.
pub proof fn lemma_graph_line_anchors(c: Seq<char>)
    requires
        c.len() >= 8,
        c.subrange(0, 7) == "GRAPH <"@,
        c.last() == '{',
        text::is_ascii_seq(c),
    ensures
        line_anchor(seq![' ', ' '] + c),
{
    reveal_strlit("GRAPH <");
    let l = seq![' ', ' '] + c;
    assert(l.drop_first().drop_first() =~= c);
    assert(c[0] == c.subrange(0, 7)[0]);
    assert(c[0] == 'G');
    assert(text::lead_white(c) == 0);
    assert(l.drop_first()[0] == ' ');
    assert(text::lead_white(l.drop_first()) == 1);
    assert(text::lead_white(l) == 2);
    assert(text::trim_start_seq(l) =~= c);
    assert(text::trail_white(c) == 0);
    assert(text::trim_end_seq(c) =~= c);
    let u = text::upper(c);
    assert(u == text::ascii_upper_seq(c));
    assert(u.subrange(0, 7) =~= "GRAPH <"@) by {
        assert forall|i: int| 0 <= i < 7 implies u[i] == c[i] by {
            assert(c[i] == c.subrange(0, 7)[i]);
        }
    }
    assert(text::starts_with_seq(u, "GRAPH <"@));
}

/// A query with a line `  GRAPH <...> {` of ASCII text between two line
/// breaks is anchored to a named graph.
pub proof fn lemma_query_with_graph_line(q: Seq<char>, h: Seq<char>, c: Seq<char>, t: Seq<char>)
    requires
        q == h + seq!['\n'] + (seq![' ', ' '] + c) + seq!['\n'] + t,
        c.len() >= 8,
        c.subrange(0, 7) == "GRAPH <"@,
        c.last() == '{',
        text::is_ascii_seq(c),
        !text::has_char(c, '\n'),
    ensures
        bound_graph_spec(q),
{
    let l = seq![' ', ' '] + c;
    text::lemma_has_char_concat(seq![' ', ' '], c, '\n');
    lemma_line_between(h, l, t);
    assert(strip_cr(l) == l);
    lemma_graph_line_anchors(c);
    let ls = lines_seq(q);
    let k = choose|k: int| 0 <= k < ls.len() && #[trigger] ls[k] == strip_cr(l);
    assert(line_anchor(ls[k]));
}

/// An unanchored query whose upper-cased text holds `FILTER` and one of
/// `CONTAINS`, `REGEX`, `STRSTARTS` or `STRENDS` gets an unanchored string
/// filter hazard, first; one that holds none of these four, or no `FILTER`,
/// gets none; an anchored query gets no hazard at all.
pub proof fn law_string_filter_hazard(u: Seq<char>, anchored: bool, wildcard: bool)
    ensures
        ({
            let hz = hazards_spec(string_filter_in(u), anchored, wildcard);
            let filter = text::contains_seq(u, "FILTER"@) && (text::contains_seq(u, "CONTAINS"@)
                || text::contains_seq(u, "REGEX"@) || text::contains_seq(u, "STRSTARTS"@)
                || text::contains_seq(u, "STRENDS"@));
            &&& filter && !anchored ==> hz.len() >= 1 && hz[0].0 == HazardKind::UnanchoredStringFilter
            &&& !filter ==> forall|i: int|
                0 <= i < hz.len() ==> (#[trigger] hz[i]).0 != HazardKind::UnanchoredStringFilter
            &&& wildcard && !anchored ==> hz.last().0 == HazardKind::UnboundedWildcardScan
            &&& anchored ==> hz.len() == 0
        }),
{
    let hz = hazards_spec(string_filter_in(u), anchored, wildcard);
    assert(hz =~= (if string_filter_in(u) && !anchored {
        seq![hazard_of(HazardKind::UnanchoredStringFilter)]
    } else {
        Seq::empty()
    }) + (if wildcard && !anchored {
        seq![hazard_of(HazardKind::UnboundedWildcardScan)]
    } else {
        Seq::empty()
    }));
}

/// The same for a whole query: `lint_query` flags an unanchored query with
/// `FILTER` and `REGEX` (or `CONTAINS`, `STRSTARTS`, `STRENDS`), in any
/// case, with an unanchored string filter first.
pub proof fn law_lint_flags_string_filters(sparql: Seq<char>, wildcard: bool)
    requires
        !bound_graph_spec(sparql),
        text::contains_seq(text::upper(sparql), "FILTER"@),
        text::contains_seq(text::upper(sparql), "CONTAINS"@) || text::contains_seq(
            text::upper(sparql),
            "REGEX"@,
        ) || text::contains_seq(text::upper(sparql), "STRSTARTS"@) || text::contains_seq(
            text::upper(sparql),
            "STRENDS"@,
        ),
    ensures
        lint_spec(sparql, bound_graph_spec(sparql), wildcard).len() >= 1,
        lint_spec(sparql, bound_graph_spec(sparql), wildcard)[0].0 == HazardKind::UnanchoredStringFilter,
{
    law_string_filter_hazard(text::upper(sparql), false, wildcard);
}

} // verus!
