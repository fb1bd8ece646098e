//! Lexicographic order of texts, the order in which `String` compares
//! (by code point, which UTF-8 byte order agrees with).
use vstd::prelude::*;

verus! {

/// `a` comes before `b` or equals it, comparing characters by code point
/// from the left; a proper prefix comes first.
pub open spec fn lex_le(a: Seq<char>, b: Seq<char>) -> bool
    decreases a.len(),
{
    if a.len() == 0 {
        true
    } else if b.len() == 0 {
        false
    } else if a[0] != b[0] {
        (a[0] as u32) < (b[0] as u32)
    } else {
        lex_le(a.drop_first(), b.drop_first())
    }
}

proof fn lemma_char_code_injective(x: char, y: char)
    ensures
        (x as u32) == (y as u32) ==> x == y,
{
    vstd::utf8::char_u32_cast(x, x as u32);
    vstd::utf8::char_u32_cast(y, y as u32);
}

/// Any two texts are ordered one way or the other.
pub proof fn lemma_lex_total(a: Seq<char>, b: Seq<char>)
    ensures
        lex_le(a, b) || lex_le(b, a),
    decreases a.len(),
{
    if a.len() > 0 && b.len() > 0 {
        lemma_char_code_injective(a[0], b[0]);
        if a[0] == b[0] {
            lemma_lex_total(a.drop_first(), b.drop_first());
        }
    }
}

/// Texts ordered both ways are equal.
pub proof fn lemma_lex_antisym(a: Seq<char>, b: Seq<char>)
    requires
        lex_le(a, b),
        lex_le(b, a),
    ensures
        a == b,
    decreases a.len(),
{
    if a.len() > 0 && b.len() > 0 {
        lemma_char_code_injective(a[0], b[0]);
        lemma_lex_antisym(a.drop_first(), b.drop_first());
        assert(a =~= seq![a[0]] + a.drop_first());
        assert(b =~= seq![b[0]] + b.drop_first());
    } else {
        assert(a =~= b);
    }
}

/// The order is transitive.
pub proof fn lemma_lex_trans(a: Seq<char>, b: Seq<char>, c: Seq<char>)
    requires
        lex_le(a, b),
        lex_le(b, c),
    ensures
        lex_le(a, c),
    decreases a.len(),
{
    if a.len() > 0 && b.len() > 0 && c.len() > 0 {
        lemma_char_code_injective(a[0], b[0]);
        lemma_char_code_injective(b[0], c[0]);
        lemma_char_code_injective(a[0], c[0]);
        if a[0] == b[0] && b[0] == c[0] {
            lemma_lex_trans(a.drop_first(), b.drop_first(), c.drop_first());
        }
    }
}

/// Every text is ordered with itself.
pub proof fn lemma_lex_refl(a: Seq<char>)
    ensures
        lex_le(a, a),
    decreases a.len(),
{
    if a.len() > 0 {
        lemma_lex_refl(a.drop_first());
    }
}

/// Compares two texts as [`lex_le`] does.
pub fn chars_le(a: &Vec<char>, b: &Vec<char>) -> (r: bool)
    ensures
        r == lex_le(a@, b@),
{
    let mut i: usize = 0;
    assert(a@.skip(0) =~= a@);
    assert(b@.skip(0) =~= b@);
    while i < a.len() && i < b.len()
        invariant
            i <= a@.len(),
            i <= b@.len(),
            a@.take(i as int) == b@.take(i as int),
            lex_le(a@, b@) == lex_le(a@.skip(i as int), b@.skip(i as int)),
        decreases a.len() - i,
    {
        let ghost sa = a@.skip(i as int);
        let ghost sb = b@.skip(i as int);
        assert(sa[0] == a@[i as int]);
        assert(sb[0] == b@[i as int]);
        if a[i] != b[i] {
            let x = a[i];
            let y = b[i];
            return (x as u32) < (y as u32);
        }
        assert(sa.drop_first() =~= a@.skip(i + 1));
        assert(sb.drop_first() =~= b@.skip(i + 1));
        assert(a@.take(i + 1) =~= a@.take(i as int).push(a@[i as int]));
        assert(b@.take(i + 1) =~= b@.take(i as int).push(b@[i as int]));
        i = i + 1;
    }
    assert(a@.skip(i as int).len() == 0 || b@.skip(i as int).len() == 0);
    i == a.len()
}

/// Pairs of texts ordered by their first, then by their second text.
pub open spec fn pair_le(p: (Seq<char>, Seq<char>), q: (Seq<char>, Seq<char>)) -> bool {
    if p.0 == q.0 {
        lex_le(p.1, q.1)
    } else {
        lex_le(p.0, q.0)
    }
}

/// Pairs are ordered one way or the other.
pub proof fn lemma_pair_total(p: (Seq<char>, Seq<char>), q: (Seq<char>, Seq<char>))
    ensures
        pair_le(p, q) || pair_le(q, p),
{
    lemma_lex_total(p.0, q.0);
    lemma_lex_total(p.1, q.1);
}

/// The pair order is transitive.
pub proof fn lemma_pair_trans(
    p: (Seq<char>, Seq<char>),
    q: (Seq<char>, Seq<char>),
    r: (Seq<char>, Seq<char>),
)
    requires
        pair_le(p, q),
        pair_le(q, r),
    ensures
        pair_le(p, r),
{
    if p.0 == q.0 && q.0 == r.0 {
        lemma_lex_trans(p.1, q.1, r.1);
    } else if p.0 == q.0 {
        assert(lex_le(p.0, r.0));
    } else if q.0 == r.0 {
        assert(lex_le(p.0, r.0));
    } else {
        lemma_lex_trans(p.0, q.0, r.0);
        if p.0 == r.0 {
            lemma_lex_antisym(p.0, q.0);
        }
    }
}

/// A sequence is sorted under `le` when every earlier element is `le` every
/// later one.
pub open spec fn sorted_by<A>(s: Seq<A>, le: spec_fn(A, A) -> bool) -> bool {
    forall|i: int, j: int| 0 <= i < j < s.len() ==> #[trigger] le(s[i], s[j])
}


/// `le` is total and transitive.
pub open spec fn total_order<A>(le: spec_fn(A, A) -> bool) -> bool {
    &&& forall|a: A, b: A| #[trigger] le(a, b) || le(b, a)
    &&& forall|a: A, b: A, c: A| #![trigger le(a, b), le(b, c)] le(a, b) && le(b, c) ==> le(a, c)
}

/// The text order is a total order.
pub proof fn lemma_lex_total_order()
    ensures
        total_order(|a: Seq<char>, b: Seq<char>| lex_le(a, b)),
{
    assert forall|a: Seq<char>, b: Seq<char>| lex_le(a, b) || lex_le(b, a) by {
        lemma_lex_total(a, b);
    }
    assert forall|a: Seq<char>, b: Seq<char>, c: Seq<char>|
        lex_le(a, b) && lex_le(b, c) implies lex_le(a, c) by {
        lemma_lex_trans(a, b, c);
    }
}

/// The pair order is a total order.
pub proof fn lemma_pair_total_order()
    ensures
        total_order(|p: (Seq<char>, Seq<char>), q: (Seq<char>, Seq<char>)| pair_le(p, q)),
{
    assert forall|p: (Seq<char>, Seq<char>), q: (Seq<char>, Seq<char>)|
        pair_le(p, q) || pair_le(q, p) by {
        lemma_pair_total(p, q);
    }
    assert forall|p: (Seq<char>, Seq<char>), q: (Seq<char>, Seq<char>), r: (Seq<char>, Seq<char>)|
        pair_le(p, q) && pair_le(q, r) implies pair_le(p, r) by {
        lemma_pair_trans(p, q, r);
    }
}

/// Inserting `x` before the first element that is not `le` it keeps a
/// sorted sequence sorted.
#[verifier::spinoff_prover]
#[verifier::rlimit(30)]
pub proof fn lemma_insert_sorted<A>(s: Seq<A>, pos: int, x: A, le: spec_fn(A, A) -> bool)
    requires
        total_order(le),
        sorted_by(s, le),
        0 <= pos <= s.len(),
        forall|i: int| 0 <= i < pos ==> #[trigger] le(s[i], x),
        pos < s.len() ==> !le(s[pos], x),
    ensures
        sorted_by(s.insert(pos, x), le),
{
    let t = s.insert(pos, x);
    s.insert_ensures(pos, x);
    assert forall|i: int, j: int| 0 <= i < j < t.len() implies #[trigger] le(t[i], t[j]) by {
        if j < pos {
            assert(le(s[i], s[j]));
        } else if j == pos {
            assert(le(s[i], x));
        } else if i == pos {
            assert(t[j] == s[j - 1]);
            assert(le(x, s[pos]) || le(s[pos], x));
            if j - 1 > pos {
                assert(le(s[pos], s[j - 1]));
            }
        } else if i < pos {
            assert(t[j] == s[j - 1]);
            assert(le(s[i], s[j - 1]));
        } else {
            assert(t[i] == s[i - 1]);
            assert(t[j] == s[j - 1]);
            assert(le(s[i - 1], s[j - 1]));
        }
    }
}

/// Inserting an element anywhere adds it to the multiset of elements.
pub proof fn lemma_insert_multiset<A>(s: Seq<A>, pos: int, x: A)
    requires
        0 <= pos <= s.len(),
    ensures
        s.insert(pos, x).to_multiset() == s.to_multiset().insert(x),
{
    let t = s.insert(pos, x);
    s.insert_ensures(pos, x);
    assert(t.remove(pos) =~= s);
    t.to_multiset_ensures();
    assert(t.contains(x)) by {
        assert(t[pos] == x);
    }
    assert(t.to_multiset() =~= s.to_multiset().insert(x));
}

} // verus!
