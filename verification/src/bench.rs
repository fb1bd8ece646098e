//! The multi-hop benchmark suite: its profiles, which of them a filter
//! selects, and the text of its report that involves no timing.
use vstd::prelude::*;
use crate::audit;
use crate::numbers;
use crate::queries;
use crate::text;

verus! {

/// One benchmark profile.
pub struct BenchmarkProfile {
    pub id: &'static str,
    pub name: &'static str,
    pub hops: usize,
    pub query: &'static str,
}

/// Query of the `macro-diamond` benchmark profile.
pub const BENCH_MACRO_DIAMOND_QUERY: &'static str = "\nPREFIX lx: <https://repolex.ai/ontology/repolex/lsp-extension/>\nSELECT ?rlexFile ?axumFile ?synTarget ?quoteTarget ?pmTarget\nWHERE {\n  GRAPH <https://repolex.ai/r/repolex-ai/rlex/lsp/550a8e5a1a7b121bd970eff3e7575acd158f6bb8> {\n    ?e1 lx:resolutionSourceFile ?rlexFile ;\n        lx:externalPackage \"axum\" .\n  }\n  GRAPH <https://repolex.ai/r/tokio-rs/axum/lsp/c59208c86fded335cd85e388030ad59347b0e5ae> {\n    ?e2 lx:resolutionSourceFile ?axumFile ;\n        lx:externalPackage \"syn\" ;\n        lx:callTarget ?synTarget .\n  }\n  GRAPH <https://repolex.ai/r/dtolnay/syn/lsp/7bcb37cdb3399977658c8b52d2441d37e42e48f2> {\n    ?e3 lx:externalPackage \"quote\" ;\n        lx:callTarget ?quoteTarget .\n  }\n  GRAPH <https://repolex.ai/r/dtolnay/quote/lsp/842ffde933fdd76cd1681a288bed136d8b95a97a> {\n    ?e4 lx:externalPackage \"proc-macro2\" ;\n        lx:callTarget ?pmTarget .\n  }\n}\nLIMIT 25\n";

/// Query of the `compression` benchmark profile.
pub const BENCH_COMPRESSION_QUERY: &'static str = "\nPREFIX lx: <https://repolex.ai/ontology/repolex/lsp-extension/>\nSELECT ?flateFile ?target\nWHERE {\n  GRAPH <https://repolex.ai/r/rust-lang/flate2-rs/lsp/93c81772305a102f1ec846bd12713dd7bf1e3f04> {\n    ?e lx:resolutionSourceFile ?flateFile ;\n       lx:externalPackage \"crc32fast\" ;\n       lx:callTarget ?target .\n  }\n}\nLIMIT 20\n";

/// View of a profile: id, name, hops, query.
pub type ProfileView = (Seq<char>, Seq<char>, nat, Seq<char>);

/// View of a profile.
pub open spec fn profile_view(p: BenchmarkProfile) -> ProfileView {
    (p.id@, p.name@, p.hops as nat, p.query@)
}

/// The profiles of the suite, in order.
pub open spec fn profile_table() -> Seq<ProfileView> {
    seq![
        ("search-triad"@, "Search Engine Triad (2-Hop)"@, 2nat, queries::SEARCH_TRIAD_QUERY@),
        ("macro-diamond"@, "Macro Diamond (4-Hop)"@, 4nat, BENCH_MACRO_DIAMOND_QUERY@),
        ("web-to-search"@, "Web-to-Search Traversal (4-Hop)"@, 4nat, queries::WEB_TO_SEARCH_QUERY@),
        ("posix"@, "Bedrock POSIX Layer (1-Hop)"@, 1nat, queries::SOCKET_TO_LIBC_QUERY@),
        ("compression"@, "Compression Arm (1-Hop)"@, 1nat, BENCH_COMPRESSION_QUERY@),
    ]
}

/// The profiles of the suite.
pub fn profiles() -> (r: Vec<BenchmarkProfile>)
    ensures
        r@.len() == profile_table().len(),
        forall|i: int| 0 <= i < r@.len() ==> profile_view(#[trigger] r@[i]) == profile_table()[i],
{
    let mut r: Vec<BenchmarkProfile> = Vec::new();
    r.push(BenchmarkProfile { id: "search-triad", name: "Search Engine Triad (2-Hop)", hops: 2, query: queries::SEARCH_TRIAD_QUERY });
    r.push(BenchmarkProfile { id: "macro-diamond", name: "Macro Diamond (4-Hop)", hops: 4, query: BENCH_MACRO_DIAMOND_QUERY });
    r.push(BenchmarkProfile { id: "web-to-search", name: "Web-to-Search Traversal (4-Hop)", hops: 4, query: queries::WEB_TO_SEARCH_QUERY });
    r.push(BenchmarkProfile { id: "posix", name: "Bedrock POSIX Layer (1-Hop)", hops: 1, query: queries::SOCKET_TO_LIBC_QUERY });
    r.push(BenchmarkProfile { id: "compression", name: "Compression Arm (1-Hop)", hops: 1, query: BENCH_COMPRESSION_QUERY });
    r
}

/// ASCII lower case of one character; other characters stay as they are.
pub open spec fn ascii_lower(c: char) -> char {
    if 65 <= (c as u32) <= 90 {
        ((c as u32) + 32) as char
    } else {
        c
    }
}

/// `str::eq_ignore_ascii_case`: equal once ASCII letters are lower-cased.
pub open spec fn eq_ignore_ascii_case_spec(a: Seq<char>, b: Seq<char>) -> bool {
    a.len() == b.len() && forall|i: int| 0 <= i < a.len() ==> ascii_lower(#[trigger] a[i]) == ascii_lower(b[i])
}

fn ascii_lower_exec(c: char) -> (r: char)
    ensures
        r == ascii_lower(c),
{
    let u = c as u32;
    if 65 <= u && u <= 90 {
        proof {
            vstd::utf8::char_is_scalar(c);
        }
        let l = u + 32;
        assert(vstd::utf8::is_scalar(l));
        char_from_ascii(l)
    } else {
        c
    }
}

fn char_from_ascii(u: u32) -> (c: char)
    requires
        97 <= u <= 122,
    ensures
        c == u as char,
{
    let b: u8 = u as u8;
    b as char
}

/// Compares two texts ignoring ASCII case.
pub fn eq_ignore_ascii_case(a: &str, b: &str) -> (r: bool)
    ensures
        r == eq_ignore_ascii_case_spec(a@, b@),
{
    let av = text::chars_of(a);
    let bv = text::chars_of(b);
    if av.len() != bv.len() {
        return false;
    }
    let mut i: usize = 0;
    while i < av.len()
        invariant
            av@ == a@,
            bv@ == b@,
            av@.len() == bv@.len(),
            i <= av@.len(),
            forall|j: int| 0 <= j < i ==> ascii_lower(#[trigger] av@[j]) == ascii_lower(bv@[j]),
        decreases av.len() - i,
    {
        if ascii_lower_exec(av[i]) != ascii_lower_exec(bv[i]) {
            return false;
        }
        i = i + 1;
    }
    true
}

/// A profile is selected by `all`, by its id ignoring ASCII case, or by a
/// filter that its lower-cased name contains lower-cased.
pub open spec fn profile_selected(p: ProfileView, filter: Seq<char>) -> bool {
    ||| filter == "all"@
    ||| eq_ignore_ascii_case_spec(p.0, filter)
    ||| text::contains_seq(text::lower(p.1), text::lower(filter))
}

/// The positions of the profiles that a filter selects, in order.
pub fn select_profiles(filter: &str) -> (r: Vec<usize>)
    ensures
        forall|k: int| 0 <= k < r@.len() ==> r@[k] < profile_table().len(),
        forall|k: int, l: int| 0 <= k < l < r@.len() ==> r@[k] < r@[l],
        forall|i: int|
            0 <= i < profile_table().len() ==> (profile_selected(profile_table()[i], filter@)
                <==> r@.contains(i as usize)),
{
    let ps = profiles();
    let fl = text::to_lower(filter);
    let flv = text::chars_of(fl.as_str());
    let all = text::str_eq(filter, "all");
    let mut out: Vec<usize> = Vec::new();
    let mut i: usize = 0;
    while i < ps.len()
        invariant
            i <= ps@.len(),
            ps@.len() == profile_table().len(),
            forall|k: int| 0 <= k < ps@.len() ==> profile_view(#[trigger] ps@[k]) == profile_table()[k],
            flv@ == text::lower(filter@),
            all == (filter@ == "all"@),
            forall|k: int| 0 <= k < out@.len() ==> out@[k] < i,
            forall|k: int, l: int| 0 <= k < l < out@.len() ==> out@[k] < out@[l],
            forall|j: int|
                0 <= j < i ==> (profile_selected(profile_table()[j], filter@) <==> out@.contains(j as usize)),
        decreases ps.len() - i,
    {
        let p = &ps[i];
        assert(profile_view(*p) == profile_table()[i as int]);
        let nl = text::to_lower(p.name);
        let nlv = text::chars_of(nl.as_str());
        let sel = all || eq_ignore_ascii_case(p.id, filter) || text::contains_chars(&nlv, &flv);
        let ghost o = out@;
        if sel {
            out.push(i);
        }
        assert forall|j: int|
            0 <= j < i + 1 implies (profile_selected(profile_table()[j], filter@) <==> out@.contains(j as usize)) by {
            if j < i {
                if o.contains(j as usize) {
                    let k = choose|k: int| 0 <= k < o.len() && o[k] == j as usize;
                    assert(out@[k] == j as usize);
                }
                if out@.contains(j as usize) {
                    let k = choose|k: int| 0 <= k < out@.len() && out@[k] == j as usize;
                    if k < o.len() {
                        assert(o[k] == j as usize);
                    }
                }
            } else {
                if sel {
                    assert(out@[o.len() as int] == i);
                } else {
                    if out@.contains(j as usize) {
                        let k = choose|k: int| 0 <= k < out@.len() && out@[k] == j as usize;
                        assert(o[k] < i);
                    }
                }
            }
        }
        i = i + 1;
    }
    out
}

/// Message when no profile matches the filter.
pub fn no_profile_message(filter: &str) -> (r: String)
    ensures
        r@ == "No benchmark profiles match '"@ + filter@
            + "'. Available: all, search-triad, macro-diamond, web-to-search, posix, compression"@,
{
    let mut v = text::chars_of("No benchmark profiles match '");
    text::push_str(&mut v, filter);
    text::push_str(&mut v, "'. Available: all, search-triad, macro-diamond, web-to-search, posix, compression");
    text::string_from_chars(&v)
}

/// Iterations per profile: at least one.
pub fn effective_iterations(n: usize) -> (r: usize)
    ensures
        r == if n >= 1 { n } else { 1 },
{
    if n >= 1 { n } else { 1 }
}

/// The query of a profile as shown in reports: trimmed.
pub fn query_preview(q: &str) -> (r: String)
    ensures
        r@ == text::trim_seq(q@),
{
    let t = text::trim_str(q);
    text::string_from_chars(&t)
}

/// A timestamp written as seconds since the Unix epoch, a dot, and the
/// milliseconds of the current second (not padded).
pub fn chrono_like_timestamp(secs: u64, millis: u32) -> (r: String)
    ensures
        r@ == numbers::decimal(secs as nat) + "."@ + numbers::decimal(millis as nat),
{
    let mut v = numbers::decimal_chars(secs);
    text::push_str(&mut v, ".");
    let m = numbers::decimal_chars(millis as u64);
    text::push_all(&mut v, &m);
    text::string_from_chars(&v)
}

/// `n` with a comma between groups of three digits.
pub fn format_num(n: u64) -> (r: String)
    ensures
        r@ == numbers::group_thousands(numbers::decimal(n as nat)),
{
    audit::format_number(n)
}

/// Overall status of a suite run.
pub fn suite_status(all_passed: bool) -> (r: &'static str)
    ensures
        r@ == if all_passed { "PASS"@ } else { "REGRESSION"@ },
{
    if all_passed { "PASS" } else { "REGRESSION" }
}

} // verus!
