//! Decimal rendering and parsing of unsigned integers.
use vstd::prelude::*;
use crate::text;

verus! {

/// The ASCII digit for `d < 10`.
pub open spec fn digit_char(d: nat) -> char {
    (d + 48) as char
}

/// The value of an ASCII digit.
pub open spec fn digit_value(c: char) -> nat {
    ((c as u32) - 48) as nat
}

/// `c` is an ASCII decimal digit.
pub open spec fn is_digit(c: char) -> bool {
    48 <= (c as u32) <= 57
}

/// Decimal representation of `n`, without leading zeros.
pub open spec fn decimal(n: nat) -> Seq<char>
    decreases n,
{
    if n < 10 {
        seq![digit_char(n)]
    } else {
        decimal(n / 10).push(digit_char(n % 10))
    }
}

/// Digits grouped by threes from the right, groups separated by commas.
pub open spec fn group_thousands(d: Seq<char>) -> Seq<char>
    decreases d.len(),
{
    if d.len() <= 3 {
        d
    } else {
        group_thousands(d.take(d.len() - 3)) + seq![','] + d.skip(d.len() - 3)
    }
}

/// The sequence with every comma removed.
pub open spec fn without_commas(s: Seq<char>) -> Seq<char> {
    s.filter(|c: char| c != ',')
}

/// Value of a sequence of decimal digits.
pub open spec fn digits_value(ds: Seq<char>) -> nat
    decreases ds.len(),
{
    if ds.len() == 0 {
        0
    } else {
        digits_value(ds.drop_last()) * 10 + digit_value(ds.last())
    }
}

/// `str::parse` of an unsigned integer whose largest value is `max`: an
/// optional `+`, then at least one ASCII digit, with a value up to `max`.
pub open spec fn parse_decimal(s: Seq<char>, max: nat) -> Option<nat> {
    let ds = unsigned_part(s);
    if ds.len() > 0 && all_digits(ds) && digits_value(ds) <= max {
        Some(digits_value(ds))
    } else {
        None
    }
}

/// The text without one leading `+`.
pub open spec fn unsigned_part(s: Seq<char>) -> Seq<char> {
    if s.len() > 0 && s[0] == '+' {
        s.drop_first()
    } else {
        s
    }
}

/// Every character is an ASCII digit.
pub open spec fn all_digits(ds: Seq<char>) -> bool {
    forall|i: int| 0 <= i < ds.len() ==> is_digit(ds[i])
}

pub proof fn lemma_decimal_digits(n: nat)
    ensures
        forall|i: int| 0 <= i < decimal(n).len() ==> is_digit(#[trigger] decimal(n)[i]),
        decimal(n).len() >= 1,
    decreases n,
{
    if n >= 10 {
        lemma_decimal_digits(n / 10);
    }
}

/// Decimal digits of `n`.
pub fn decimal_chars(n: u64) -> (r: Vec<char>)
    ensures
        r@ == decimal(n as nat),
    decreases n,
{
    if n < 10 {
        let c = ((n as u8) + 48u8) as char;
        let mut r: Vec<char> = Vec::new();
        r.push(c);
        assert(r@ =~= seq![digit_char(n as nat)]);
        r
    } else {
        let mut r = decimal_chars(n / 10);
        let d = n % 10;
        let c = ((d as u8) + 48u8) as char;
        r.push(c);
        r
    }
}

/// `group_thousands` of the first `n` characters of `d`.
pub fn group_thousands_chars(d: &Vec<char>, n: usize) -> (r: Vec<char>)
    requires
        n <= d.len(),
    ensures
        r@ == group_thousands(d@.take(n as int)),
    decreases n,
{
    if n <= 3 {
        text::slice_chars(d, 0, n)
    } else {
        let mut r = group_thousands_chars(d, n - 3);
        r.push(',');
        let tail = text::slice_chars(d, n - 3, n);
        text::push_all(&mut r, &tail);
        proof {
            let t = d@.take(n as int);
            assert(t.take(t.len() - 3) =~= d@.take(n - 3));
            assert(t.skip(t.len() - 3) =~= d@.subrange(n - 3, n as int));
        }
        r
    }
}

/// The digit after `c`, or nothing.
fn digit_of(c: char) -> (r: Option<u64>)
    ensures
        r is Some <==> is_digit(c),
        r matches Some(v) ==> v == digit_value(c) && v < 10,
{
    let u = c as u32;
    if 48 <= u && u <= 57 {
        Some((u - 48) as u64)
    } else {
        None
    }
}

/// `str::parse::<u64>`.
#[verifier::loop_isolation(false)]
pub fn parse_u64(s: &str) -> (r: Option<u64>)
    ensures
        match r {
            Some(v) => parse_decimal(s@, u64::MAX as nat) == Some(v as nat),
            None => parse_decimal(s@, u64::MAX as nat) is None,
        },
{
    let v = text::chars_of(s);
    let start: usize = if v.len() > 0 && v[0] == '+' {
        1
    } else {
        0
    };
    let ghost ds = unsigned_part(s@);
    assert(ds =~= v@.skip(start as int));
    if start >= v.len() {
        return None;
    }
    let mut acc: u64 = 0;
    let mut i: usize = start;
    assert(ds.take(0) =~= Seq::<char>::empty());
    while i < v.len()
        invariant
            start <= i <= v.len(),
            ds == v@.skip(start as int),
            forall|j: int| start <= j < i ==> is_digit(v@[j]),
            acc as nat == digits_value(ds.take(i - start)),
        decreases v.len() - i,
    {
        match digit_of(v[i]) {
            None => {
                assert(ds[i - start] == v@[i as int]);
                assert(!is_digit(ds[i - start]));
                assert(!all_digits(ds));
                return None;
            },
            Some(d) => {
                proof {
                    assert(ds.take(i - start + 1).drop_last() =~= ds.take(i - start));
                    assert(ds.take(i - start + 1).last() == v@[i as int]);
                }
                if acc > (u64::MAX - d) / 10 {
                    proof {
                        assert(acc * 10 + d > u64::MAX) by (nonlinear_arith)
                            requires
                                acc > (u64::MAX - d) / 10,
                                d < 10,
                        ;
                        if all_digits(ds) {
                            lemma_digits_value_monotone(ds, i - start + 1);
                        }
                    }
                    return None;
                }
                assert(acc * 10 + d <= u64::MAX) by (nonlinear_arith)
                    requires
                        acc <= (u64::MAX - d) / 10,
                        d < 10,
                ;
                acc = acc * 10 + d;
                i = i + 1;
            },
        }
    }
    assert(ds.take(i - start) =~= ds);
    Some(acc)
}

proof fn lemma_digits_value_monotone(ds: Seq<char>, k: int)
    requires
        0 <= k <= ds.len(),
        all_digits(ds),
    ensures
        digits_value(ds.take(k)) <= digits_value(ds),
    decreases ds.len() - k,
{
    if k < ds.len() {
        lemma_digits_value_monotone(ds, k + 1);
        assert(ds.take(k + 1).drop_last() =~= ds.take(k));
        let a = digits_value(ds.take(k));
        let b = digits_value(ds.take(k + 1));
        assert(a <= b) by (nonlinear_arith)
            requires
                b == a * 10 + digit_value(ds.take(k + 1).last()),
        ;
    } else {
        assert(ds.take(k) =~= ds);
    }
}

/// `str::parse::<usize>`.
pub fn parse_usize(s: &str) -> (r: Option<usize>)
    ensures
        match r {
            Some(v) => parse_decimal(s@, usize::MAX as nat) == Some(v as nat),
            None => parse_decimal(s@, usize::MAX as nat) is None,
        },
{
    match parse_u64(s) {
        None => {
            proof {
                assert(usize::MAX <= u64::MAX);
            }
            None
        },
        Some(v) => {
            if v > usize::MAX as u64 {
                None
            } else {
                Some(v as usize)
            }
        },
    }
}


proof fn lemma_digit_round_trip(d: nat)
    requires
        d < 10,
    ensures
        is_digit(digit_char(d)),
        digit_value(digit_char(d)) == d,
{
    let c = digit_char(d);
    assert((c as u32) == d + 48) by {
        assert(0 <= d + 48 <= 57);
    }
}

pub proof fn lemma_decimal_value(n: nat)
    ensures
        all_digits(decimal(n)),
        digits_value(decimal(n)) == n,
        decimal(n).len() >= 1,
        decimal(n)[0] != '+',
    decreases n,
{
    lemma_digit_round_trip(n % 10);
    if n >= 10 {
        lemma_decimal_value(n / 10);
        let s = decimal(n / 10);
        assert(decimal(n).drop_last() =~= s);
        assert(decimal(n).last() == digit_char(n % 10));
        assert(decimal(n)[0] == s[0]);
        assert(digits_value(decimal(n)) == digits_value(s) * 10 + digit_value(digit_char(n % 10)));
        assert((n / 10) * 10 + n % 10 == n);
        assert(digits_value(decimal(n)) == n);
    } else {
        assert(decimal(n) == seq![digit_char(n)]);
        assert(decimal(n).drop_last() =~= Seq::<char>::empty());
        assert(digits_value(decimal(n)) == digits_value(Seq::<char>::empty()) * 10 + digit_value(digit_char(n)));
        assert(digits_value(decimal(n)) == n);
    }
}

proof fn lemma_without_commas_append(a: Seq<char>, b: Seq<char>)
    ensures
        without_commas(a + b) == without_commas(a) + without_commas(b),
{
    Seq::filter_distributes_over_add(a, b, |c: char| c != ',');
}

proof fn lemma_without_commas_digits(d: Seq<char>)
    requires
        all_digits(d),
    ensures
        without_commas(d) == d,
    decreases d.len(),
{
    reveal_with_fuel(Seq::filter, 1);
    if d.len() > 0 {
        lemma_without_commas_digits(d.drop_last());
        assert(is_digit(d.last()));
        assert(d.drop_last().push(d.last()) =~= d);
    } else {
        assert(without_commas(d) =~= d);
    }
}

proof fn lemma_ungroup(d: Seq<char>)
    requires
        all_digits(d),
    ensures
        without_commas(group_thousands(d)) == d,
    decreases d.len(),
{
    if d.len() <= 3 {
        lemma_without_commas_digits(d);
    } else {
        let head = d.take(d.len() - 3);
        let tail = d.skip(d.len() - 3);
        assert(all_digits(head));
        assert(all_digits(tail));
        lemma_ungroup(head);
        lemma_without_commas_append(group_thousands(head) + seq![','], tail);
        lemma_without_commas_append(group_thousands(head), seq![',']);
        lemma_without_commas_digits(tail);
        assert(without_commas(seq![',']) =~= Seq::<char>::empty()) by {
            reveal_with_fuel(Seq::filter, 2);
        }
        assert(head + tail =~= d);
    }
}

/// Reading back a number written with thousands separators gives the
/// number: dropping the commas and parsing the digits as `str::parse::<u64>`
/// does yields `n` again.
pub proof fn law_grouped_decimal_round_trip(n: u64)
    ensures
        parse_decimal(without_commas(group_thousands(decimal(n as nat))), u64::MAX as nat) == Some(
            n as nat,
        ),
{
    lemma_decimal_value(n as nat);
    lemma_ungroup(decimal(n as nat));
}

} // verus!
