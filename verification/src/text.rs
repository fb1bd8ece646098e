//! Character-level string helpers with specifications over `Seq<char>`.
//!
//! Strings are handled as vectors of `char` inside the library; every helper
//! states its result over the `Seq<char>` view, so that callers can compose
//! the specifications of trimming, searching, splitting and replacing.
use vstd::prelude::*;

verus! {

// ---------------------------------------------------------------------------
// Specifications
// ---------------------------------------------------------------------------

/// Unicode `White_Space` property, the set tested by `char::is_whitespace`.
pub open spec fn is_white(c: char) -> bool {
    let u = c as u32;
    ||| 0x9 <= u <= 0xd
    ||| u == 0x20
    ||| u == 0x85
    ||| u == 0xa0
    ||| u == 0x1680
    ||| 0x2000 <= u <= 0x200a
    ||| u == 0x2028
    ||| u == 0x2029
    ||| u == 0x202f
    ||| u == 0x205f
    ||| u == 0x3000
}

/// Number of leading whitespace characters.
pub open spec fn lead_white(s: Seq<char>) -> nat
    decreases s.len(),
{
    if s.len() > 0 && is_white(s[0]) {
        1 + lead_white(s.drop_first())
    } else {
        0
    }
}

/// Number of trailing whitespace characters.
pub open spec fn trail_white(s: Seq<char>) -> nat
    decreases s.len(),
{
    if s.len() > 0 && is_white(s.last()) {
        1 + trail_white(s.drop_last())
    } else {
        0
    }
}

/// `str::trim_start`: the sequence without its leading whitespace.
pub open spec fn trim_start_seq(s: Seq<char>) -> Seq<char> {
    s.skip(lead_white(s) as int)
}

/// `str::trim_end`: the sequence without its trailing whitespace.
pub open spec fn trim_end_seq(s: Seq<char>) -> Seq<char> {
    s.take(s.len() - trail_white(s))
}

/// `str::trim`: whitespace removed from both ends.
pub open spec fn trim_seq(s: Seq<char>) -> Seq<char> {
    trim_end_seq(trim_start_seq(s))
}

/// `p` occurs in `s` starting at index `i`.
pub open spec fn occurs_at(s: Seq<char>, p: Seq<char>, i: int) -> bool {
    0 <= i && i + p.len() <= s.len() && s.subrange(i, i + p.len()) == p
}

/// `str::contains` with a string pattern.
pub open spec fn contains_seq(s: Seq<char>, p: Seq<char>) -> bool {
    exists|i: int| occurs_at(s, p, i)
}

/// `str::starts_with` with a string pattern.
pub open spec fn starts_with_seq(s: Seq<char>, p: Seq<char>) -> bool {
    occurs_at(s, p, 0)
}

/// `str::ends_with` with a string pattern.
pub open spec fn ends_with_seq(s: Seq<char>, p: Seq<char>) -> bool {
    occurs_at(s, p, s.len() - p.len())
}

/// The character `c` occurs in `s`.
pub open spec fn has_char(s: Seq<char>, c: char) -> bool {
    exists|i: int| 0 <= i < s.len() && s[i] == c
}

/// `i` is the first position of `c` in `s`.
pub open spec fn is_first_index(s: Seq<char>, c: char, i: int) -> bool {
    0 <= i < s.len() && s[i] == c && forall|j: int| 0 <= j < i ==> s[j] != c
}

/// Position of the first occurrence of `c` (meaningful when `has_char(s, c)`).
pub open spec fn first_index_of(s: Seq<char>, c: char) -> int {
    choose|i: int| is_first_index(s, c, i)
}

/// `i` is the last position of `c` in `s`.
pub open spec fn is_last_index(s: Seq<char>, c: char, i: int) -> bool {
    0 <= i < s.len() && s[i] == c && forall|j: int| i < j < s.len() ==> s[j] != c
}

/// Position of the last occurrence of `c` (meaningful when `has_char(s, c)`).
pub open spec fn last_index_of(s: Seq<char>, c: char) -> int {
    choose|i: int| is_last_index(s, c, i)
}

/// `str::split_once` with a `char` delimiter: the parts before and after the
/// first occurrence of `c`.
pub open spec fn split_once_seq(s: Seq<char>, c: char) -> Option<(Seq<char>, Seq<char>)> {
    if has_char(s, c) {
        let i = first_index_of(s, c);
        Some((s.take(i), s.skip(i + 1)))
    } else {
        None
    }
}

/// The part after the last occurrence of `c`, or all of `s` when `c` does
/// not occur: the first item of `str::rsplit(c)`.
pub open spec fn after_last_seq(s: Seq<char>, c: char) -> Seq<char> {
    if has_char(s, c) {
        s.skip(last_index_of(s, c) + 1)
    } else {
        s
    }
}

/// `str::splitn(n, c)`: at most `n` pieces, the last one holding the rest.
pub open spec fn splitn_seq(s: Seq<char>, n: nat, c: char) -> Seq<Seq<char>>
    decreases n,
{
    if n <= 1 || !has_char(s, c) {
        seq![s]
    } else {
        let i = first_index_of(s, c);
        seq![s.take(i)] + splitn_seq(s.skip(i + 1), (n - 1) as nat, c)
    }
}

/// `str::replace(p, r)` for a non-empty pattern: non-overlapping matches,
/// taken from left to right.
pub open spec fn replace_seq(s: Seq<char>, p: Seq<char>, r: Seq<char>) -> Seq<char>
    recommends
        p.len() > 0,
    decreases s.len(),
{
    if p.len() == 0 || s.len() < p.len() {
        s
    } else if s.take(p.len() as int) == p {
        r + replace_seq(s.skip(p.len() as int), p, r)
    } else {
        seq![s[0]] + replace_seq(s.drop_first(), p, r)
    }
}

/// The result of `str::to_lowercase` on a text that is not all ASCII.
pub uninterp spec fn unicode_lower(s: Seq<char>) -> Seq<char>;

/// The result of `str::to_lowercase`: ASCII lower-casing on ASCII text,
/// Unicode lower-casing otherwise.
pub open spec fn lower(s: Seq<char>) -> Seq<char> {
    if is_ascii_seq(s) {
        ascii_lower_seq(s)
    } else {
        unicode_lower(s)
    }
}

/// Every character of `s` is ASCII.
pub open spec fn is_ascii_seq(s: Seq<char>) -> bool {
    forall|i: int| 0 <= i < s.len() ==> (#[trigger] s[i] as u32) < 128
}

/// ASCII lower case of one character; other characters stay as they are.
pub open spec fn ascii_lower_char(c: char) -> char {
    if 65 <= (c as u32) <= 90 {
        ((c as u32) + 32) as char
    } else {
        c
    }
}

/// ASCII upper case of one character; other characters stay as they are.
pub open spec fn ascii_upper_char(c: char) -> char {
    if 97 <= (c as u32) <= 122 {
        ((c as u32) - 32) as char
    } else {
        c
    }
}

/// ASCII lower case of a text, character by character.
pub open spec fn ascii_lower_seq(s: Seq<char>) -> Seq<char> {
    s.map_values(|c: char| ascii_lower_char(c))
}

/// ASCII upper case of a text, character by character.
pub open spec fn ascii_upper_seq(s: Seq<char>) -> Seq<char> {
    s.map_values(|c: char| ascii_upper_char(c))
}

/// The result of `str::to_uppercase` on a text that is not all ASCII.
pub uninterp spec fn unicode_upper(s: Seq<char>) -> Seq<char>;

/// The result of `str::to_uppercase`: ASCII upper-casing on ASCII text,
/// Unicode upper-casing otherwise.
pub open spec fn upper(s: Seq<char>) -> Seq<char> {
    if is_ascii_seq(s) {
        ascii_upper_seq(s)
    } else {
        unicode_upper(s)
    }
}

/// `i` is the first position of `s` whose element satisfies `p`.
pub open spec fn is_first_where<A>(s: Seq<A>, p: spec_fn(A) -> bool, i: int) -> bool {
    0 <= i < s.len() && p(s[i]) && forall|j: int| 0 <= j < i ==> !p(s[j])
}

/// Some element of `s` satisfies `p`.
pub open spec fn any_where<A>(s: Seq<A>, p: spec_fn(A) -> bool) -> bool {
    exists|i: int| 0 <= i < s.len() && p(s[i])
}

/// Position of the first element of `s` that satisfies `p` (meaningful when
/// `any_where(s, p)`).
pub open spec fn first_where<A>(s: Seq<A>, p: spec_fn(A) -> bool) -> int {
    choose|i: int| is_first_where(s, p, i)
}

/// A position that satisfies `is_first_where` is the one `first_where` picks.
pub proof fn lemma_first_where<A>(s: Seq<A>, p: spec_fn(A) -> bool, i: int)
    requires
        is_first_where(s, p, i),
    ensures
        first_where(s, p) == i,
        any_where(s, p),
{
    let k = first_where(s, p);
    assert(is_first_where(s, p, k));
    if k < i {
        assert(!p(s[k]));
    } else if k > i {
        assert(!p(s[i]));
    }
}

// ---------------------------------------------------------------------------
// Trusted calls into std
// ---------------------------------------------------------------------------

/// Calls `str::to_lowercase`. On ASCII text it is ASCII lower-casing,
/// character for character; on other text its Unicode case mapping is not
/// written out: the result is named `unicode_lower` of the input
/// characters. It depends on the characters alone (Rust's case mapping
/// ignores the locale).
#[verifier::external_body]
pub(crate) fn to_lower(s: &str) -> (r: String)
    ensures
        is_ascii_seq(s@) ==> r@ == ascii_lower_seq(s@),
        !is_ascii_seq(s@) ==> r@ == unicode_lower(s@),
{
    s.to_lowercase()
}

/// Calls `str::to_uppercase`. On ASCII text it is ASCII upper-casing,
/// character for character; on other text the Unicode mapping is left
/// unsaid and the result is named `unicode_upper` of the input characters.
#[verifier::external_body]
pub(crate) fn to_upper(s: &str) -> (r: String)
    ensures
        is_ascii_seq(s@) ==> r@ == ascii_upper_seq(s@),
        !is_ascii_seq(s@) ==> r@ == unicode_upper(s@),
{
    s.to_uppercase()
}

/// Calls `FromIterator<&char> for String`: the string made of the given
/// characters, in order.
#[verifier::external_body]
pub(crate) fn string_from_chars(v: &Vec<char>) -> (s: String)
    ensures
        s@ == v@,
{
    v.iter().collect::<String>()
}

// ---------------------------------------------------------------------------
// Lemmas
// ---------------------------------------------------------------------------

proof fn lemma_lead_white_step(s: Seq<char>, i: int)
    requires
        0 <= i < s.len(),
        is_white(s[i]),
    ensures
        lead_white(s.skip(i)) == 1 + lead_white(s.skip(i + 1)),
{
    assert(s.skip(i).drop_first() =~= s.skip(i + 1));
}

proof fn lemma_trail_white_step(s: Seq<char>, j: int)
    requires
        0 < j <= s.len(),
        is_white(s[j - 1]),
    ensures
        trail_white(s.take(j)) == 1 + trail_white(s.take(j - 1)),
{
    assert(s.take(j).drop_last() =~= s.take(j - 1));
}

/// Concatenation distributes over UTF-8 encoding.
pub proof fn lemma_encode_utf8_append(a: Seq<char>, b: Seq<char>)
    ensures
        vstd::utf8::encode_utf8(a + b) == vstd::utf8::encode_utf8(a) + vstd::utf8::encode_utf8(b),
    decreases a.len(),
{
    if a.len() == 0 {
        assert(a + b =~= b);
        assert(vstd::utf8::encode_utf8(a) =~= Seq::<u8>::empty());
        assert(Seq::<u8>::empty() + vstd::utf8::encode_utf8(b) =~= vstd::utf8::encode_utf8(b));
    } else {
        assert((a + b).drop_first() =~= a.drop_first() + b);
        lemma_encode_utf8_append(a.drop_first(), b);
        assert((a + b)[0] == a[0]);
        let ea = vstd::utf8::encode_scalar(a[0] as u32);
        assert(vstd::utf8::encode_utf8(a + b) =~= ea + (vstd::utf8::encode_utf8(a.drop_first())
            + vstd::utf8::encode_utf8(b)));
        assert(vstd::utf8::encode_utf8(a) =~= ea + vstd::utf8::encode_utf8(a.drop_first()));
    }
}

// ---------------------------------------------------------------------------
// Executable helpers
// ---------------------------------------------------------------------------

/// Collects the characters of a string slice into a vector.
pub fn chars_of(s: &str) -> (v: Vec<char>)
    ensures
        v@ == s@,
{
    let mut v: Vec<char> = Vec::new();
    for c in it: s.chars()
        invariant
            it.seq() == s@,
            v@ == s@.take(it.index() as int),
    {
        v.push(c);
    }
    assert(s@.take(s@.len() as int) =~= s@);
    v
}

/// Appends the characters of `s` to `v`.
pub fn push_str(v: &mut Vec<char>, s: &str)
    ensures
        final(v)@ == old(v)@ + s@,
{
    let cs = chars_of(s);
    push_all(v, &cs);
}

/// Appends the characters of `w` to `v`.
pub fn push_all(v: &mut Vec<char>, w: &Vec<char>)
    ensures
        final(v)@ == old(v)@ + w@,
{
    let ghost v0 = v@;
    let mut i: usize = 0;
    while i < w.len()
        invariant
            i <= w.len(),
            v@ == v0 + w@.take(i as int),
        decreases w.len() - i,
    {
        v.push(w[i]);
        i = i + 1;
        assert(v0 + w@.take(i as int) =~= (v0 + w@.take(i - 1 as int)).push(w@[i - 1]));
    }
    assert(w@.take(w.len() as int) =~= w@);
}

/// Whether two character vectors are equal.
pub fn chars_eq(a: &Vec<char>, b: &Vec<char>) -> (r: bool)
    ensures
        r == (a@ == b@),
{
    if a.len() != b.len() {
        return false;
    }
    let mut i: usize = 0;
    while i < a.len()
        invariant
            a.len() == b.len(),
            i <= a.len(),
            forall|j: int| 0 <= j < i ==> a@[j] == b@[j],
        decreases a.len() - i,
    {
        if a[i] != b[i] {
            return false;
        }
        i = i + 1;
    }
    assert(a@ =~= b@);
    true
}

/// Whether `p` occurs in `s` at position `i`.
pub fn matches_at(s: &Vec<char>, p: &Vec<char>, i: usize) -> (r: bool)
    ensures
        r == occurs_at(s@, p@, i as int),
{
    if i > s.len() || p.len() > s.len() - i {
        return false;
    }
    let mut k: usize = 0;
    while k < p.len()
        invariant
            i + p.len() <= s.len(),
            k <= p.len(),
            forall|j: int| 0 <= j < k ==> s@[i + j] == p@[j],
        decreases p.len() - k,
    {
        if s[i + k] != p[k] {
            assert(s@.subrange(i as int, i + p.len())[k as int] != p@[k as int]);
            return false;
        }
        k = k + 1;
    }
    assert(s@.subrange(i as int, i + p.len()) =~= p@);
    true
}

/// Whether `p` occurs anywhere in `s`.
pub fn contains_chars(s: &Vec<char>, p: &Vec<char>) -> (r: bool)
    ensures
        r == contains_seq(s@, p@),
{
    if p.len() > s.len() {
        return false;
    }
    let limit = s.len() - p.len();
    let mut i: usize = 0;
    while i < limit
        invariant
            p.len() <= s.len(),
            limit == s.len() - p.len(),
            i <= limit,
            forall|j: int| 0 <= j < i ==> !occurs_at(s@, p@, j),
        decreases limit - i,
    {
        if matches_at(s, p, i) {
            return true;
        }
        i = i + 1;
    }
    if matches_at(s, p, limit) {
        return true;
    }
    assert forall|j: int| !occurs_at(s@, p@, j) by {
        if 0 <= j && j + p@.len() <= s@.len() {
            assert(j <= limit);
        }
    }
    false
}

/// `str::contains` on string slices.
pub fn str_contains(s: &str, p: &str) -> (r: bool)
    ensures
        r == contains_seq(s@, p@),
{
    let sv = chars_of(s);
    let pv = chars_of(p);
    contains_chars(&sv, &pv)
}

/// `str::starts_with` on string slices.
pub fn str_starts_with(s: &str, p: &str) -> (r: bool)
    ensures
        r == starts_with_seq(s@, p@),
{
    let sv = chars_of(s);
    let pv = chars_of(p);
    matches_at(&sv, &pv, 0)
}

/// `str::ends_with` on string slices.
pub fn str_ends_with(s: &str, p: &str) -> (r: bool)
    ensures
        r == ends_with_seq(s@, p@),
{
    let sv = chars_of(s);
    let pv = chars_of(p);
    if pv.len() > sv.len() {
        return false;
    }
    matches_at(&sv, &pv, sv.len() - pv.len())
}

/// Whether two string slices hold the same characters.
pub fn str_eq(a: &str, b: &str) -> (r: bool)
    ensures
        r == (a@ == b@),
{
    let av = chars_of(a);
    let bv = chars_of(b);
    chars_eq(&av, &bv)
}

/// `str::trim`, on a character vector.
pub fn trim_chars(s: &Vec<char>) -> (r: Vec<char>)
    ensures
        r@ == trim_seq(s@),
{
    let n = s.len();
    let mut a: usize = 0;
    assert(s@.skip(0) =~= s@);
    while a < n && is_white_char(s[a])
        invariant
            n == s.len(),
            a <= n,
            lead_white(s@) == a + lead_white(s@.skip(a as int)),
        decreases n - a,
    {
        proof {
            lemma_lead_white_step(s@, a as int);
        }
        a = a + 1;
    }
    assert(lead_white(s@.skip(a as int)) == 0) by {
        if a < n {
            assert(s@.skip(a as int)[0] == s@[a as int]);
        }
    }
    let ghost t = s@.skip(a as int);
    let mut b: usize = n;
    assert(t.take(b - a) =~= t);
    while b > a && is_white_char(s[b - 1])
        invariant
            n == s.len(),
            a <= b <= n,
            t == s@.skip(a as int),
            trail_white(t) == (n - b) + trail_white(t.take(b - a)),
        decreases b,
    {
        proof {
            assert(t[b - a - 1] == s@[b - 1]);
            lemma_trail_white_step(t, b - a);
        }
        b = b - 1;
    }
    assert(trail_white(t.take(b - a)) == 0) by {
        if b > a {
            assert(t.take(b - a).last() == s@[b - 1]);
        }
    }
    assert(t.take(b - a) =~= t.take(t.len() - trail_white(t)));
    let mut r: Vec<char> = Vec::new();
    let mut i: usize = a;
    while i < b
        invariant
            n == s.len(),
            a <= i <= b <= n,
            r@ == s@.subrange(a as int, i as int),
        decreases b - i,
    {
        r.push(s[i]);
        i = i + 1;
        assert(r@ =~= s@.subrange(a as int, i as int));
    }
    assert(r@ =~= t.take(b - a));
    r
}

/// `str::trim_start`, on a character vector.
pub fn trim_start_chars(s: &Vec<char>) -> (r: Vec<char>)
    ensures
        r@ == trim_start_seq(s@),
{
    let n = s.len();
    let mut a: usize = 0;
    assert(s@.skip(0) =~= s@);
    while a < n && is_white_char(s[a])
        invariant
            n == s.len(),
            a <= n,
            lead_white(s@) == a + lead_white(s@.skip(a as int)),
        decreases n - a,
    {
        proof {
            lemma_lead_white_step(s@, a as int);
        }
        a = a + 1;
    }
    assert(lead_white(s@.skip(a as int)) == 0) by {
        if a < n {
            assert(s@.skip(a as int)[0] == s@[a as int]);
        }
    }
    let mut r: Vec<char> = Vec::new();
    let mut i: usize = a;
    while i < n
        invariant
            n == s.len(),
            a <= i <= n,
            r@ == s@.subrange(a as int, i as int),
        decreases n - i,
    {
        r.push(s[i]);
        i = i + 1;
        assert(r@ =~= s@.subrange(a as int, i as int));
    }
    assert(r@ =~= s@.skip(a as int));
    r
}

/// `char::is_whitespace`.
pub fn is_white_char(c: char) -> (r: bool)
    ensures
        r == is_white(c),
{
    let u = c as u32;
    (0x9 <= u && u <= 0xd) || u == 0x20 || u == 0x85 || u == 0xa0 || u == 0x1680 || (0x2000
        <= u && u <= 0x200a) || u == 0x2028 || u == 0x2029 || u == 0x202f || u == 0x205f || u
        == 0x3000
}

/// `str::trim` on a string slice, as characters.
pub fn trim_str(s: &str) -> (r: Vec<char>)
    ensures
        r@ == trim_seq(s@),
{
    let v = chars_of(s);
    trim_chars(&v)
}

/// Position of the first `c` in `s`, if any.
pub fn find_char(s: &Vec<char>, c: char) -> (r: Option<usize>)
    ensures
        r is None <==> !has_char(s@, c),
        r matches Some(i) ==> i < s.len() && is_first_index(s@, c, i as int) && i as int
            == first_index_of(s@, c),
{
    let mut i: usize = 0;
    while i < s.len()
        invariant
            i <= s.len(),
            forall|j: int| 0 <= j < i ==> s@[j] != c,
        decreases s.len() - i,
    {
        if s[i] == c {
            proof {
                assert(is_first_index(s@, c, i as int));
                let k = first_index_of(s@, c);
                assert(is_first_index(s@, c, k));
                if k < i {
                    assert(s@[k] != c);
                } else if k > i {
                    assert(s@[i as int] != c);
                }
            }
            return Some(i);
        }
        i = i + 1;
    }
    None
}

/// Position of the last `c` in `s`, if any.
pub fn rfind_char(s: &Vec<char>, c: char) -> (r: Option<usize>)
    ensures
        r is None <==> !has_char(s@, c),
        r matches Some(i) ==> i < s.len() && is_last_index(s@, c, i as int) && i as int
            == last_index_of(s@, c),
{
    let mut i: usize = s.len();
    while i > 0
        invariant
            i <= s.len(),
            forall|j: int| i <= j < s.len() ==> s@[j] != c,
        decreases i,
    {
        if s[i - 1] == c {
            proof {
                let i1 = i - 1;
                assert(is_last_index(s@, c, i1 as int));
                let k = last_index_of(s@, c);
                assert(is_last_index(s@, c, k));
                if k < i1 {
                    assert(s@[i1 as int] != c);
                } else if k > i1 {
                    assert(s@[k] != c);
                }
            }
            return Some(i - 1);
        }
        i = i - 1;
    }
    None
}

/// Elements `from..to` of `s`.
pub fn slice_chars(s: &Vec<char>, from: usize, to: usize) -> (r: Vec<char>)
    requires
        from <= to <= s.len(),
    ensures
        r@ == s@.subrange(from as int, to as int),
{
    let mut r: Vec<char> = Vec::new();
    let mut i: usize = from;
    while i < to
        invariant
            from <= i <= to <= s.len(),
            r@ == s@.subrange(from as int, i as int),
        decreases to - i,
    {
        r.push(s[i]);
        i = i + 1;
        assert(r@ =~= s@.subrange(from as int, i as int));
    }
    r
}

/// `str::split_once(c)`.
pub fn split_once_chars(s: &Vec<char>, c: char) -> (r: Option<(Vec<char>, Vec<char>)>)
    ensures
        r is None <==> split_once_seq(s@, c) is None,
        r matches Some((a, b)) ==> split_once_seq(s@, c) == Some((a@, b@)),
{
    match find_char(s, c) {
        None => None,
        Some(i) => {
            let a = slice_chars(s, 0, i);
            let b = slice_chars(s, i + 1, s.len());
            assert(a@ =~= s@.take(i as int));
            assert(b@ =~= s@.skip(i + 1));
            Some((a, b))
        },
    }
}

/// The part after the last `c`, or the whole of `s`.
pub fn after_last_chars(s: &Vec<char>, c: char) -> (r: Vec<char>)
    ensures
        r@ == after_last_seq(s@, c),
{
    match rfind_char(s, c) {
        None => slice_chars(s, 0, s.len()),
        Some(i) => {
            let r = slice_chars(s, i + 1, s.len());
            assert(r@ =~= s@.skip(i + 1));
            r
        },
    }
}

/// `str::splitn(n, c)`.
pub fn splitn_chars(s: &Vec<char>, n: usize, c: char) -> (r: Vec<Vec<char>>)
    requires
        n >= 1,
    ensures
        r@.map_values(|x: Vec<char>| x@) == splitn_seq(s@, n as nat, c),
{
    let mut pieces: Vec<Vec<char>> = Vec::new();
    let mut rest: Vec<char> = slice_chars(s, 0, s.len());
    let mut k: usize = n;
    assert(rest@ =~= s@);
    while k > 1
        invariant
            1 <= k <= n,
            pieces@.map_values(|x: Vec<char>| x@) + splitn_seq(rest@, k as nat, c) == splitn_seq(
                s@,
                n as nat,
                c,
            ),
        decreases k,
    {
        match find_char(&rest, c) {
            None => {
                k = 1;
            },
            Some(i) => {
                let head = slice_chars(&rest, 0, i);
                let tail = slice_chars(&rest, i + 1, rest.len());
                proof {
                    assert(head@ =~= rest@.take(i as int));
                    assert(tail@ =~= rest@.skip(i + 1));
                    assert(splitn_seq(rest@, k as nat, c) == seq![head@] + splitn_seq(
                        tail@,
                        (k - 1) as nat,
                        c,
                    ));
                    let ghost old_pieces = pieces@;
                    assert((old_pieces.push(head)).map_values(|x: Vec<char>| x@) =~= old_pieces.map_values(
                        |x: Vec<char>| x@,
                    ) + seq![head@]);
                }
                pieces.push(head);
                rest = tail;
                k = k - 1;
            },
        }
    }
    let ghost old_pieces = pieces@;
    pieces.push(rest);
    proof {
        assert(splitn_seq(rest@, k as nat, c) == seq![rest@]);
        assert((old_pieces.push(rest)).map_values(|x: Vec<char>| x@) =~= old_pieces.map_values(
            |x: Vec<char>| x@,
        ) + seq![rest@]);
    }
    pieces
}

/// `str::replace(p, r)` for a non-empty pattern.
pub fn replace_chars(s: &Vec<char>, p: &Vec<char>, r: &Vec<char>) -> (out: Vec<char>)
    requires
        p.len() > 0,
    ensures
        out@ == replace_seq(s@, p@, r@),
{
    let mut out: Vec<char> = Vec::new();
    let mut i: usize = 0;
    let n = s.len();
    assert(s@.skip(0) =~= s@);
    while i < n
        invariant
            n == s.len(),
            p.len() > 0,
            i <= n,
            out@ + replace_seq(s@.skip(i as int), p@, r@) == replace_seq(s@, p@, r@),
        decreases n - i,
    {
        let ghost rest = s@.skip(i as int);
        if matches_at(s, p, i) {
            proof {
                assert(rest.take(p.len() as int) =~= s@.subrange(i as int, i + p.len()));
                assert(rest.skip(p.len() as int) =~= s@.skip(i + p.len()));
                assert(replace_seq(rest, p@, r@) == r@ + replace_seq(
                    s@.skip(i + p.len()),
                    p@,
                    r@,
                ));
            }
            let ghost o = out@;
            push_all(&mut out, r);
            assert(o + (r@ + replace_seq(s@.skip(i + p.len()), p@, r@)) =~= (o + r@)
                + replace_seq(s@.skip(i + p.len()), p@, r@));
            i = i + p.len();
        } else {
            proof {
                assert(rest.drop_first() =~= s@.skip(i + 1));
                assert(rest[0] == s@[i as int]);
                if rest.len() >= p.len() {
                    assert(rest.take(p.len() as int) =~= s@.subrange(i as int, i + p.len()));
                }
                assert(replace_seq(rest, p@, r@) == seq![s@[i as int]] + replace_seq(
                    s@.skip(i + 1),
                    p@,
                    r@,
                ));
            }
            let ghost o = out@;
            out.push(s[i]);
            assert(o + (seq![s@[i as int]] + replace_seq(s@.skip(i + 1), p@, r@)) =~= o.push(
                s@[i as int],
            ) + replace_seq(s@.skip(i + 1), p@, r@));
            i = i + 1;
        }
    }
    assert(s@.skip(n as int) =~= Seq::<char>::empty());
    assert(out@ + Seq::<char>::empty() =~= out@);
    out
}

/// Concatenation of two character vectors.
pub fn concat_chars(a: &Vec<char>, b: &Vec<char>) -> (r: Vec<char>)
    ensures
        r@ == a@ + b@,
{
    let mut r = slice_chars(a, 0, a.len());
    assert(r@ =~= a@);
    push_all(&mut r, b);
    r
}

} // verus!

verus! {

/// Copies of the strings `v[from..to]`.
pub fn clone_strings(v: &Vec<String>, from: usize, to: usize) -> (r: Vec<String>)
    requires
        from <= to <= v.len(),
    ensures
        r@ == v@.subrange(from as int, to as int),
{
    let mut r: Vec<String> = Vec::new();
    let mut i: usize = from;
    while i < to
        invariant
            from <= i <= to <= v.len(),
            r@ == v@.subrange(from as int, i as int),
        decreases to - i,
    {
        r.push(v[i].clone());
        i = i + 1;
        assert(r@ =~= v@.subrange(from as int, i as int));
    }
    r
}


/// The parts joined with `sep` between each two of them: `[T]::join`.
pub open spec fn join_seq(parts: Seq<Seq<char>>, sep: Seq<char>) -> Seq<char>
    decreases parts.len(),
{
    if parts.len() == 0 {
        Seq::empty()
    } else if parts.len() == 1 {
        parts[0]
    } else {
        join_seq(parts.drop_last(), sep) + sep + parts.last()
    }
}

/// Joins strings with a separator.
pub fn join_strings(parts: &Vec<String>, sep: &str) -> (r: String)
    ensures
        r@ == join_seq(parts@.map_values(|s: String| s@), sep@),
{
    let ghost pv = parts@.map_values(|s: String| s@);
    let mut v: Vec<char> = Vec::new();
    let mut i: usize = 0;
    while i < parts.len()
        invariant
            i <= parts@.len(),
            pv == parts@.map_values(|s: String| s@),
            v@ == join_seq(pv.take(i as int), sep@),
        decreases parts.len() - i,
    {
        proof {
            assert(pv.take(i + 1).drop_last() =~= pv.take(i as int));
            assert(pv.take(i + 1).last() == parts@[i as int]@);
        }
        if i > 0 {
            push_str(&mut v, sep);
        } else {
            assert(pv.take(1) =~= seq![parts@[0]@]);
        }
        push_str(&mut v, parts[i].as_str());
        i = i + 1;
    }
    assert(pv.take(parts@.len() as int) =~= pv);
    string_from_chars(&v)
}

/// The first position of `c` is the one that `first_index_of` names.
pub proof fn lemma_first_index_at(s: Seq<char>, c: char, i: int)
    requires
        is_first_index(s, c, i),
    ensures
        has_char(s, c),
        first_index_of(s, c) == i,
{
    assert(s[i] == c);
    let k = first_index_of(s, c);
    assert(is_first_index(s, c, k));
    if k < i {
        assert(s[k] != c);
    } else if k > i {
        assert(s[i] != c);
    }
}

/// A character occurs in a concatenation exactly when it occurs in a part.
pub proof fn lemma_has_char_concat(a: Seq<char>, b: Seq<char>, c: char)
    ensures
        has_char(a + b, c) <==> (has_char(a, c) || has_char(b, c)),
{
    if has_char(a + b, c) {
        let i = choose|i: int| 0 <= i < (a + b).len() && (a + b)[i] == c;
        if i < a.len() {
            assert(a[i] == c);
        } else {
            assert(b[i - a.len()] == c);
        }
    }
    if has_char(a, c) {
        let i = choose|i: int| 0 <= i < a.len() && a[i] == c;
        assert((a + b)[i] == c);
    }
    if has_char(b, c) {
        let i = choose|i: int| 0 <= i < b.len() && b[i] == c;
        assert((a + b)[a.len() + i] == c);
    }
}

/// Splitting `a`, `c`, `b` at the first `c`, when `a` holds none, gives `a`
/// and `b`.
pub proof fn lemma_split_once_join(a: Seq<char>, c: char, b: Seq<char>)
    requires
        !has_char(a, c),
    ensures
        split_once_seq(a + seq![c] + b, c) == Some((a, b)),
{
    let s = a + seq![c] + b;
    assert forall|j: int| 0 <= j < a.len() implies s[j] != c by {
        assert(s[j] == a[j]);
    }
    lemma_first_index_at(s, c, a.len() as int);
    assert(s.take(a.len() as int) =~= a);
    assert(s.skip(a.len() as int + 1) =~= b);
}

/// Splitting `a`, `c`, `b` into at most `n >= 2` parts, when `a` holds no
/// `c`, gives `a` followed by the parts of `b`.
pub proof fn lemma_splitn_join(a: Seq<char>, c: char, b: Seq<char>, n: nat)
    requires
        !has_char(a, c),
        n >= 2,
    ensures
        splitn_seq(a + seq![c] + b, n, c) == seq![a] + splitn_seq(b, (n - 1) as nat, c),
{
    let s = a + seq![c] + b;
    assert forall|j: int| 0 <= j < a.len() implies s[j] != c by {
        assert(s[j] == a[j]);
    }
    lemma_first_index_at(s, c, a.len() as int);
    assert(s.take(a.len() as int) =~= a);
    assert(s.skip(a.len() as int + 1) =~= b);
}

/// The parts of `splitn_seq`: at least one and at most `n` (or one), none
/// but the last holding `c`, none holding a character `s` lacks, and the
/// last a suffix of `s`.
pub proof fn lemma_splitn_parts(s: Seq<char>, n: nat, c: char, d: char)
    ensures
        splitn_seq(s, n, c).len() >= 1,
        splitn_seq(s, n, c).len() <= if n <= 1 { 1 } else { n },
        forall|k: int|
            0 <= k < splitn_seq(s, n, c).len() - 1 ==> !has_char(#[trigger] splitn_seq(s, n, c)[k], c),
        !has_char(s, d) ==> forall|k: int|
            0 <= k < splitn_seq(s, n, c).len() ==> !has_char(#[trigger] splitn_seq(s, n, c)[k], d),
        exists|j: int| 0 <= j <= s.len() && splitn_seq(s, n, c).last() == #[trigger] s.skip(j),
    decreases n,
{
    let segs = splitn_seq(s, n, c);
    if n <= 1 || !has_char(s, c) {
        assert(s.skip(0) =~= s);
    } else {
        let i = first_index_of(s, c);
        let i0 = choose|i: int| 0 <= i < s.len() && s[i] == c;
        assert(exists|x: int| is_first_index(s, c, x)) by {
            lemma_exists_first_index(s, c, i0);
        }
        assert(is_first_index(s, c, i));
        let rest = s.skip(i + 1);
        lemma_splitn_parts(rest, (n - 1) as nat, c, d);
        let rs = splitn_seq(rest, (n - 1) as nat, c);
        assert(segs == seq![s.take(i)] + rs);
        assert(!has_char(s.take(i), c)) by {
            if has_char(s.take(i), c) {
                let j = choose|j: int| 0 <= j < s.take(i).len() && s.take(i)[j] == c;
                assert(s[j] == c);
            }
        }
        if !has_char(s, d) {
            lemma_has_char_concat(s.take(i), s.skip(i), d);
            assert(s.take(i) + s.skip(i) =~= s);
            lemma_has_char_concat(s.skip(i).take(1), rest, d);
            assert(s.skip(i).take(1) + rest =~= s.skip(i));
            assert forall|k: int| 0 <= k < segs.len() implies !has_char(#[trigger] segs[k], d) by {
                if k > 0 {
                    assert(segs[k] == rs[k - 1]);
                }
            }
        }
        assert forall|k: int| 0 <= k < segs.len() - 1 implies !has_char(#[trigger] segs[k], c) by {
            if k > 0 {
                assert(segs[k] == rs[k - 1]);
            }
        }
        let j = choose|j: int| 0 <= j <= rest.len() && rs.last() == #[trigger] rest.skip(j);
        assert(rest.skip(j) =~= s.skip(i + 1 + j));
        assert(segs.last() == rs.last());
    }
}

/// Some position is the first of `c` when `c` occurs at `i`.
pub proof fn lemma_exists_first_index(s: Seq<char>, c: char, i: int)
    requires
        0 <= i < s.len(),
        s[i] == c,
    ensures
        exists|x: int| is_first_index(s, c, x),
    decreases i,
{
    if exists|j: int| 0 <= j < i && s[j] == c {
        let j = choose|j: int| 0 <= j < i && s[j] == c;
        lemma_exists_first_index(s, c, j);
    } else {
        assert(is_first_index(s, c, i));
    }
}

/// The last character of a trimmed text is not whitespace.
pub proof fn lemma_trim_end_last(s: Seq<char>)
    ensures
        trail_white(s) <= s.len(),
        trim_end_seq(s).len() > 0 ==> !is_white(trim_end_seq(s).last()),
    decreases s.len(),
{
    if s.len() > 0 && is_white(s.last()) {
        let t = s.drop_last();
        lemma_trim_end_last(t);
        assert(trail_white(s) == 1 + trail_white(t));
        assert(trim_end_seq(s) =~= trim_end_seq(t));
    }
}

/// A text that neither starts nor ends with whitespace is its own trim.
pub proof fn lemma_trim_unchanged(s: Seq<char>)
    requires
        s.len() > 0,
        !is_white(s[0]),
        !is_white(s.last()),
    ensures
        trim_seq(s) == s,
{
    assert(lead_white(s) == 0);
    assert(trim_start_seq(s) =~= s);
    assert(trail_white(s) == 0);
    assert(trim_end_seq(s) =~= s);
}

/// Trailing whitespace after a text that does not end with whitespace is
/// the trailing whitespace of the part after it.
pub proof fn lemma_trail_white_concat(a: Seq<char>, b: Seq<char>)
    requires
        a.len() > 0,
        !is_white(a.last()),
    ensures
        trail_white(a + b) == trail_white(b),
        trim_end_seq(a + b) == a + trim_end_seq(b),
    decreases b.len(),
{
    lemma_trim_end_last(b);
    if b.len() == 0 {
        assert(a + b =~= a);
        assert(trail_white(a) == 0);
        assert(a.take(a.len() as int) =~= a);
        assert(trim_end_seq(b) =~= b);
    } else if is_white(b.last()) {
        assert((a + b).drop_last() =~= a + b.drop_last());
        lemma_trail_white_concat(a, b.drop_last());
        lemma_trim_end_last(b.drop_last());
        assert(trim_end_seq(a + b) =~= a + trim_end_seq(b));
    } else {
        assert((a + b).take((a + b).len() as int) =~= a + b);
        assert(b.take(b.len() as int) =~= b);
    }
}

/// A text that starts with a non-whitespace part keeps it when trimmed.
pub proof fn lemma_trim_after_prefix(a: Seq<char>, b: Seq<char>)
    requires
        a.len() > 0,
        !is_white(a[0]),
        !is_white(a.last()),
    ensures
        trim_seq(a + b) == a + trim_end_seq(b),
{
    assert((a + b)[0] == a[0]);
    assert(lead_white(a + b) == 0);
    assert(trim_start_seq(a + b) =~= a + b);
    lemma_trail_white_concat(a, b);
}

/// The parts of a split joined again by the separator.
pub open spec fn join_on(segs: Seq<Seq<char>>, c: char) -> Seq<char>
    decreases segs.len(),
{
    if segs.len() == 0 {
        Seq::empty()
    } else if segs.len() == 1 {
        segs[0]
    } else {
        segs[0] + seq![c] + join_on(segs.drop_first(), c)
    }
}

/// Joining the parts of `splitn_seq` by the separator gives the text back.
pub proof fn lemma_splitn_joined(s: Seq<char>, n: nat, c: char)
    ensures
        join_on(splitn_seq(s, n, c), c) == s,
    decreases n,
{
    if n <= 1 || !has_char(s, c) {
    } else {
        let i0 = choose|i: int| 0 <= i < s.len() && s[i] == c;
        lemma_exists_first_index(s, c, i0);
        let i = first_index_of(s, c);
        assert(is_first_index(s, c, i));
        let rest = s.skip(i + 1);
        lemma_splitn_joined(rest, (n - 1) as nat, c);
        lemma_splitn_parts(rest, (n - 1) as nat, c, c);
        let segs = splitn_seq(s, n, c);
        assert(segs.drop_first() =~= splitn_seq(rest, (n - 1) as nat, c));
        assert(s.take(i) + seq![c] + rest =~= s);
    }
}

/// Five parts joined by a separator.
pub proof fn lemma_join_five(segs: Seq<Seq<char>>, c: char)
    requires
        segs.len() == 5,
    ensures
        join_on(segs, c) == segs[0] + seq![c] + segs[1] + seq![c] + segs[2] + seq![c] + segs[3] + seq![c]
            + segs[4],
{
    let d1 = segs.drop_first();
    let d2 = d1.drop_first();
    let d3 = d2.drop_first();
    let d4 = d3.drop_first();
    assert(join_on(d4, c) == segs[4]);
    assert(join_on(d3, c) == segs[3] + seq![c] + segs[4]);
    assert(join_on(d2, c) == segs[2] + seq![c] + (segs[3] + seq![c] + segs[4]));
    assert(join_on(d1, c) == segs[1] + seq![c] + (segs[2] + seq![c] + (segs[3] + seq![c] + segs[4])));
    assert(join_on(segs, c) =~= segs[0] + seq![c] + segs[1] + seq![c] + segs[2] + seq![c] + segs[3]
        + seq![c] + segs[4]);
}

/// Every character is a lower-case hexadecimal digit.
pub open spec fn is_hex_seq(s: Seq<char>) -> bool {
    forall|i: int| 0 <= i < s.len() ==> ('0' <= #[trigger] s[i] <= '9' || 'a' <= s[i] <= 'f')
}

/// A hexadecimal text holds no `/` and no `#`.
pub proof fn lemma_hex_plain(s: Seq<char>)
    requires
        is_hex_seq(s),
    ensures
        !has_char(s, '/'),
        !has_char(s, '#'),
{
    assert forall|i: int| 0 <= i < s.len() implies s[i] != '/' && s[i] != '#' by {
        assert('0' <= s[i] <= '9' || 'a' <= s[i] <= 'f');
    }
}

/// Removing a pattern that does not hold `c` keeps a `c` the text holds.
pub proof fn lemma_replace_keeps_char(s: Seq<char>, p: Seq<char>, c: char)
    requires
        has_char(s, c),
        !has_char(p, c),
    ensures
        has_char(replace_seq(s, p, Seq::empty()), c),
    decreases s.len(),
{
    if p.len() == 0 || s.len() < p.len() {
    } else if s.take(p.len() as int) == p {
        let i = choose|i: int| 0 <= i < s.len() && s[i] == c;
        if i < p.len() {
            assert(p[i] == s.take(p.len() as int)[i]);
        }
        assert(s.skip(p.len() as int)[i - p.len()] == c);
        lemma_replace_keeps_char(s.skip(p.len() as int), p, c);
        assert(Seq::<char>::empty() + replace_seq(s.skip(p.len() as int), p, Seq::empty()) =~= replace_seq(
            s.skip(p.len() as int),
            p,
            Seq::empty(),
        ));
    } else {
        let r = replace_seq(s.drop_first(), p, Seq::empty());
        if s[0] == c {
            assert((seq![s[0]] + r)[0] == c);
        } else {
            let i = choose|i: int| 0 <= i < s.len() && s[i] == c;
            assert(s.drop_first()[i - 1] == c);
            lemma_replace_keeps_char(s.drop_first(), p, c);
            let j = choose|j: int| 0 <= j < r.len() && r[j] == c;
            assert((seq![s[0]] + r)[j + 1] == c);
        }
    }
}

/// The first position that holds the element at `k`.
pub proof fn lemma_first_copy<A>(s: Seq<A>, k: int) -> (j: int)
    requires
        0 <= k < s.len(),
    ensures
        0 <= j <= k,
        s[j] == s[k],
        forall|i: int| 0 <= i < j ==> s[i] != s[k],
    decreases k,
{
    if exists|i: int| 0 <= i < k && s[i] == s[k] {
        let i = choose|i: int| 0 <= i < k && s[i] == s[k];
        lemma_first_copy(s, i)
    } else {
        k
    }
}

/// Replacing a pattern that does not occur leaves the text as it is.
pub proof fn lemma_replace_absent(s: Seq<char>, p: Seq<char>, r: Seq<char>)
    requires
        p.len() > 0,
        !contains_seq(s, p),
    ensures
        replace_seq(s, p, r) == s,
    decreases s.len(),
{
    if s.len() < p.len() {
    } else {
        assert(s.take(p.len() as int) != p) by {
            if s.take(p.len() as int) == p {
                assert(s.subrange(0, p.len() as int) =~= s.take(p.len() as int));
                assert(occurs_at(s, p, 0));
            }
        }
        assert(!contains_seq(s.drop_first(), p)) by {
            if contains_seq(s.drop_first(), p) {
                let i = choose|i: int| occurs_at(s.drop_first(), p, i);
                assert(s.subrange(i + 1, i + 1 + p.len()) =~= s.drop_first().subrange(i, i + p.len()));
                assert(occurs_at(s, p, i + 1));
            }
        }
        lemma_replace_absent(s.drop_first(), p, r);
        assert(seq![s[0]] + s.drop_first() =~= s);
    }
}

/// When some element satisfies `p`, `first_where` names the first one.
pub proof fn lemma_first_where_holds<A>(s: Seq<A>, p: spec_fn(A) -> bool)
    requires
        any_where(s, p),
    ensures
        is_first_where(s, p, first_where(s, p)),
{
    let k = choose|i: int| 0 <= i < s.len() && p(s[i]);
    let j = lemma_first_satisfying(s, p, k);
    lemma_first_where(s, p, j);
}

proof fn lemma_first_satisfying<A>(s: Seq<A>, p: spec_fn(A) -> bool, k: int) -> (j: int)
    requires
        0 <= k < s.len(),
        p(s[k]),
    ensures
        is_first_where(s, p, j),
    decreases k,
{
    if exists|i: int| 0 <= i < k && p(s[i]) {
        let i = choose|i: int| 0 <= i < k && p(s[i]);
        lemma_first_satisfying(s, p, i)
    } else {
        k
    }
}

} // verus!
