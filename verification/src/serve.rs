//! The SPARQL HTTP service: reading a query out of a request body, the
//! JSON shape of result terms, and the command line of the background
//! server.
use vstd::prelude::*;
use crate::equivalence;
use crate::numbers;
use crate::query::RdfTerm;
use crate::text;

verus! {

/// An ASCII hexadecimal digit, either case.
pub open spec fn is_hex_byte(b: u8) -> bool {
    (48 <= b <= 57) || (65 <= b <= 70) || (97 <= b <= 102)
}

/// The value of an ASCII hexadecimal digit.
pub open spec fn hex_value(b: u8) -> int {
    if 48 <= b <= 57 {
        b - 48
    } else if 65 <= b <= 70 {
        b - 55
    } else {
        b - 87
    }
}

/// Percent-decoding of bytes: each `%` followed by two hexadecimal digits
/// becomes the byte they spell; every other byte, a `%` without two digits
/// after it included, stays as it is (`+` is not turned into a space).
pub open spec fn percent_decoded_bytes(b: Seq<u8>) -> Seq<u8>
    decreases b.len(),
{
    if b.len() == 0 {
        Seq::empty()
    } else if b[0] == 37 && b.len() >= 3 && is_hex_byte(b[1]) && is_hex_byte(b[2]) {
        seq![(hex_value(b[1]) * 16 + hex_value(b[2])) as u8] + percent_decoded_bytes(b.skip(3))
    } else {
        seq![b[0]] + percent_decoded_bytes(b.drop_first())
    }
}

/// What `urlencoding::decode` gives for a text: its UTF-8 bytes
/// percent-decoded, read back as text, or nothing when they are not UTF-8.
pub open spec fn url_decoded(s: Seq<char>) -> Option<Seq<char>> {
    let b = percent_decoded_bytes(vstd::utf8::encode_utf8(s));
    if vstd::utf8::valid_utf8(b) {
        Some(vstd::utf8::decode_utf8(b))
    } else {
        None
    }
}

/// Calls `urlencoding::decode`: it percent-decodes the UTF-8 bytes of the
/// text (`decode_binary`) and reads them back as UTF-8 (`String::from_utf8`),
/// `None` standing for its error, as [`url_decoded`] states.
#[verifier::external_body]
fn percent_decode(s: &str) -> (r: Option<String>)
    ensures
        equivalence::opt_str_view(r) == url_decoded(s@),
{
    match urlencoding::decode(s) {
        Ok(c) => Some(c.into_owned()),
        Err(_) => None,
    }
}

/// The query text of a form body once its value has been decoded: the
/// decoded text, or an empty text when decoding failed.
pub fn sparql_from_decoded(decoded: Option<String>) -> (r: String)
    ensures
        r@ == match decoded {
            Some(d) => d@,
            None => Seq::<char>::empty(),
        },
{
    match decoded {
        Some(d) => d,
        None => String::new(),
    }
}

/// The query a request body carries: a form body `query=...` is
/// percent-decoded (an undecodable one gives an empty query); any other body
/// is the query itself.
pub open spec fn sparql_from_body_spec(body: Seq<char>) -> Seq<char> {
    if text::starts_with_seq(body, "query="@) {
        match url_decoded(body.skip(6)) {
            Some(d) => d,
            None => Seq::empty(),
        }
    } else {
        body
    }
}

/// Reads the query out of a POST body.
pub fn sparql_from_body(body: &str) -> (r: String)
    ensures
        r@ == sparql_from_body_spec(body@),
{
    if text::str_starts_with(body, "query=") {
        proof {
            reveal_strlit("query=");
        }
        let v = text::chars_of(body);
        let rest = text::slice_chars(&v, 6, v.len());
        assert(rest@ =~= body@.skip(6));
        let rs = text::string_from_chars(&rest);
        sparql_from_decoded(percent_decode(rs.as_str()))
    } else {
        body.to_owned()
    }
}

/// A term in the SPARQL JSON results format: its type, its value, and a
/// language tag or a datatype IRI when it has one.
#[derive(Debug)]
pub struct JsonTerm {
    pub kind: &'static str,
    pub value: String,
    pub lang: Option<String>,
    pub datatype: Option<String>,
}

/// View of a JSON term.
pub type JsonTermView = (Seq<char>, Seq<char>, Option<Seq<char>>, Option<Seq<char>>);

/// View of a JSON term.
pub open spec fn json_term_view(t: JsonTerm) -> JsonTermView {
    (
        t.kind@,
        t.value@,
        match t.lang {
            Some(l) => Some(l@),
            None => None,
        },
        match t.datatype {
            Some(d) => Some(d@),
            None => None,
        },
    )
}

/// The JSON form of a term: IRIs as `uri`, blank nodes as `bnode`, literals
/// as `literal` with their language tag, or else with their datatype unless
/// it is `xsd:string`; any other term as `unknown` with its text.
pub open spec fn term_json_spec(t: RdfTerm) -> JsonTermView {
    match t {
        RdfTerm::NamedNode(n) => ("uri"@, n@, None, None),
        RdfTerm::BlankNode(b) => ("bnode"@, b@, None, None),
        RdfTerm::Literal { value, datatype, language } => match language {
            Some(l) => ("literal"@, value@, Some(l@), None),
            None => if datatype@ == "http://www.w3.org/2001/XMLSchema#string"@ {
                ("literal"@, value@, None, None)
            } else {
                ("literal"@, value@, None, Some(datatype@))
            },
        },
        RdfTerm::Other(s) => ("unknown"@, s@, None, None),
    }
}

/// The JSON form of a term.
pub fn term_json(t: &RdfTerm) -> (r: JsonTerm)
    ensures
        json_term_view(r) == term_json_spec(*t),
{
    match t {
        RdfTerm::NamedNode(n) => JsonTerm { kind: "uri", value: n.clone(), lang: None, datatype: None },
        RdfTerm::BlankNode(b) => JsonTerm {
            kind: "bnode",
            value: b.clone(),
            lang: None,
            datatype: None,
        },
        RdfTerm::Literal { value, datatype, language } => match language {
            Some(l) => JsonTerm {
                kind: "literal",
                value: value.clone(),
                lang: Some(l.clone()),
                datatype: None,
            },
            None => {
                if text::str_eq(datatype.as_str(), "http://www.w3.org/2001/XMLSchema#string") {
                    JsonTerm { kind: "literal", value: value.clone(), lang: None, datatype: None }
                } else {
                    JsonTerm {
                        kind: "literal",
                        value: value.clone(),
                        lang: None,
                        datatype: Some(datatype.clone()),
                    }
                }
            },
        },
        RdfTerm::Other(s) => JsonTerm { kind: "unknown", value: s.clone(), lang: None, datatype: None },
    }
}

/// Arguments of the background server process.
pub open spec fn serve_args_spec(port: u16, viz_dir: Option<Seq<char>>) -> Seq<Seq<char>> {
    let base = seq!["serve"@, "--foreground"@, "--port"@, numbers::decimal(port as nat), "--no-browser"@];
    match viz_dir {
        Some(d) => base + seq!["--viz-dir"@, d],
        None => base,
    }
}

/// The arguments the background server is started with.
pub fn serve_args(port: u16, viz_dir: Option<&str>) -> (r: Vec<String>)
    ensures
        r@.map_values(|s: String| s@) == serve_args_spec(
            port,
            match viz_dir {
                Some(d) => Some(d@),
                None => None,
            },
        ),
{
    let mut r: Vec<String> = Vec::new();
    r.push("serve".to_owned());
    r.push("--foreground".to_owned());
    r.push("--port".to_owned());
    let p = numbers::decimal_chars(port as u64);
    r.push(text::string_from_chars(&p));
    r.push("--no-browser".to_owned());
    match viz_dir {
        Some(d) => {
            r.push("--viz-dir".to_owned());
            r.push(d.to_owned());
        },
        None => {},
    }
    assert(r@.map_values(|s: String| s@) =~= serve_args_spec(
        port,
        match viz_dir {
            Some(d) => Some(d@),
            None => None,
        },
    ));
    r
}

/// Local address of a server on `port`: `http://localhost:{port}`.
pub fn localhost_url(port: u16) -> (r: String)
    ensures
        r@ == "http://localhost:"@ + numbers::decimal(port as nat),
{
    let mut v = text::chars_of("http://localhost:");
    let p = numbers::decimal_chars(port as u64);
    text::push_all(&mut v, &p);
    text::string_from_chars(&v)
}


/// A leap year of the Gregorian calendar.
pub open spec fn is_leap(y: int) -> bool {
    y % 4 == 0 && (y % 100 != 0 || y % 400 == 0)
}

/// Number of days of month `m` of year `y`.
pub open spec fn month_len(y: int, m: int) -> int {
    if m == 2 {
        if is_leap(y) {
            29
        } else {
            28
        }
    } else if m == 4 || m == 6 || m == 9 || m == 11 {
        30
    } else {
        31
    }
}

/// Days of a common year before month `m`.
pub open spec fn days_before_month(m: int) -> int {
    if m <= 1 {
        0
    } else if m == 2 {
        31
    } else if m == 3 {
        59
    } else if m == 4 {
        90
    } else if m == 5 {
        120
    } else if m == 6 {
        151
    } else if m == 7 {
        181
    } else if m == 8 {
        212
    } else if m == 9 {
        243
    } else if m == 10 {
        273
    } else if m == 11 {
        304
    } else {
        334
    }
}

/// Leap years among the years 1 to `y`.
pub open spec fn leaps_through(y: int) -> int {
    y / 4 - y / 100 + y / 400
}

/// Days from 1970-01-01 to the date `y-m-d`.
pub open spec fn days_from_civil(y: int, m: int, d: int) -> int {
    365 * (y - 1970) + leaps_through(y - 1) - leaps_through(1969) + days_before_month(m) + (if m > 2
        && is_leap(y) {
        1int
    } else {
        0int
    }) + d - 1
}

/// A date from 1970 on.
pub open spec fn valid_date(y: int, m: int, d: int) -> bool {
    y >= 1970 && 1 <= m <= 12 && 1 <= d <= month_len(y, m)
}

/// Start of year `y` of a 400-year era, counted from March 1 of its first
/// year.
pub open spec fn year_start(y: int) -> int {
    365 * y + y / 4 - y / 100
}

/// Start of month `mp` of a year counted from March (0 is March).
pub open spec fn month_start(mp: int) -> int {
    (153 * mp + 2) / 5
}

proof fn lemma_closed_form(y: int, m: int, d: int)
    requires
        y >= 2,
        1 <= m <= 12,
    ensures
        ({
            let sy = if m <= 2 { y - 1 } else { y };
            let mp = if m <= 2 { m + 9 } else { m - 3 };
            days_from_civil(y, m, d) == 365 * sy + leaps_through(sy) + month_start(mp) + d - 1 - 719468
        }),
{
    assert(leaps_through(1969) == 477);
    if m > 2 {
        assert(leaps_through(y) == leaps_through(y - 1) + if is_leap(y) { 1int } else { 0int });
    }
}

proof fn lemma_before_1970(y: int, m: int, d: int)
    requires
        2 <= y <= 1969,
        1 <= m <= 12,
        1 <= d <= month_len(y, m),
    ensures
        days_from_civil(y, m, d) < 0,
{
    assert(leaps_through(1969) == 477);
    assert(leaps_through(1968) == 477);
    if y <= 1968 {
        assert((y - 1) / 4 <= 491);
        assert((y - 1) / 400 <= 4);
        assert((y - 1) / 100 >= 0);
    }
}

proof fn lemma_era_split(era: int, yoe: int)
    requires
        era >= 0,
        0 <= yoe < 400,
    ensures
        365 * (400 * era + yoe) + leaps_through(400 * era + yoe) == 146097 * era + year_start(yoe),
{
    let sy = 400 * era + yoe;
    assert(sy / 4 == 100 * era + yoe / 4);
    assert(sy / 100 == 4 * era + yoe / 100);
    assert(sy / 400 == era + yoe / 400);
    assert(yoe / 400 == 0);
}

proof fn lemma_year_start_step(y: int)
    requires
        0 <= y < 399,
    ensures
        year_start(y + 1) - year_start(y) == 365 + (if (y + 1) % 4 == 0 { 1int } else { 0int }) - (if (y + 1) % 100 == 0 { 1int } else { 0int }),
        365 <= year_start(y + 1) - year_start(y) <= 366,
{
}

/// Length of year `yoe` of an era, counted from March 1.
pub open spec fn shifted_year_len(yoe: int) -> int {
    if yoe == 399 {
        146097 - year_start(399)
    } else {
        year_start(yoe + 1) - year_start(yoe)
    }
}

proof fn lemma_shifted_year_len(era: int, yoe: int)
    requires
        era >= 0,
        0 <= yoe < 400,
    ensures
        shifted_year_len(yoe) == if is_leap(400 * era + yoe + 1) { 366int } else { 365int },
{
    if yoe < 399 {
        lemma_year_start_step(yoe);
        let sy = 400 * era + yoe + 1;
        assert(sy % 4 == (yoe + 1) % 4);
        assert(sy % 100 == (yoe + 1) % 100);
        assert(sy % 400 == yoe + 1);
    } else {
        assert(year_start(399) == 145731);
        let sy = 400 * era + 400;
        assert(sy % 400 == 0);
        assert(sy % 4 == 0);
    }
}

/// The date of day `days` after 1970-01-01, with its March-based parts:
/// era, year of era, day of year, month from March.
fn civil_from_days(days: u64) -> (r: (u64, u64, u64))
    requires
        days <= 0x1_0000_0000_0000,
    ensures
        valid_date(r.0 as int, r.1 as int, r.2 as int),
        days_from_civil(r.0 as int, r.1 as int, r.2 as int) == days,
{
    let z: u64 = days + 719468;
    let era: u64 = z / 146097;
    let doe: u64 = z % 146097;
    let mut yoe: u64 = 0;
    while yoe < 399 && year_start_exec(yoe + 1) <= doe
        invariant
            yoe <= 399,
            doe < 146097,
            year_start(yoe as int) <= doe,
        decreases 399 - yoe,
    {
        yoe = yoe + 1;
    }
    proof {
        if yoe < 399 {
            lemma_year_start_step(yoe as int);
        } else {
            assert(year_start(399) == 145731);
        }
        assert(doe < year_start(yoe as int) + shifted_year_len(yoe as int));
        lemma_shifted_year_len(era as int, yoe as int);
    }
    let doy: u64 = doe - year_start_exec(yoe);
    let mut mp: u64 = 0;
    while mp < 11 && month_start_exec(mp + 1) <= doy
        invariant
            mp <= 11,
            month_start(mp as int) <= doy,
        decreases 11 - mp,
    {
        mp = mp + 1;
    }
    let d: u64 = doy - month_start_exec(mp) + 1;
    let m: u64 = if mp < 10 { mp + 3 } else { mp - 9 };
    let sy: u64 = 400 * era + yoe;
    let y: u64 = if m <= 2 { sy + 1 } else { sy };
    proof {
        lemma_era_split(era as int, yoe as int);
        assert(era >= 4);
        lemma_closed_form(y as int, m as int, d as int);
        if y < 1970 {
            lemma_before_1970(y as int, m as int, d as int);
        }
        assert(mp < 11 ==> doy < month_start(mp + 1));
        assert(month_start(11) == 337);
        assert(is_leap(sy + 1) ==> doy < 366);
        assert(!is_leap(sy + 1) ==> doy < 365);
    }
    (y, m, d)
}

fn year_start_exec(y: u64) -> (r: u64)
    requires
        y <= 400,
    ensures
        r == year_start(y as int),
{
    365 * y + y / 4 - y / 100
}

fn month_start_exec(mp: u64) -> (r: u64)
    requires
        mp <= 12,
    ensures
        r == month_start(mp as int),
{
    (153 * mp + 2) / 5
}

/// `s` preceded by zeros up to `width` characters.
pub open spec fn zero_padded(s: Seq<char>, width: nat) -> Seq<char> {
    if s.len() < width {
        Seq::new((width - s.len()) as nat, |i: int| '0') + s
    } else {
        s
    }
}

/// `n` in decimal, zero-padded to at least `width` digits.
pub open spec fn padded(n: int, width: nat) -> Seq<char> {
    zero_padded(numbers::decimal(n as nat), width)
}

/// `YYYY-MM-DDTHH:MM:SSZ` for a date and a time of day.
pub open spec fn iso8601_text(y: int, m: int, d: int, hh: int, mi: int, ss: int) -> Seq<char> {
    padded(y, 4) + "-"@ + padded(m, 2) + "-"@ + padded(d, 2) + "T"@ + padded(hh, 2) + ":"@
        + padded(mi, 2) + ":"@ + padded(ss, 2) + "Z"@
}

/// Decimal digits of `n`, zero-padded to at least `width` digits.
fn padded_chars(n: u64, width: usize) -> (r: Vec<char>)
    ensures
        r@ == padded(n as int, width as nat),
{
    let digits = numbers::decimal_chars(n);
    let mut r: Vec<char> = Vec::new();
    if digits.len() < width {
        let fill: usize = width - digits.len();
        let mut k: usize = 0;
        while k < fill
            invariant
                k <= fill,
                r@ =~= Seq::new(k as nat, |i: int| '0'),
            decreases fill - k,
        {
            r.push('0');
            k = k + 1;
        }
    }
    let ghost zeros = r@;
    text::push_all(&mut r, &digits);
    proof {
        if digits@.len() >= width {
            assert(zeros =~= Seq::<char>::empty());
            assert(r@ =~= digits@);
        }
    }
    r
}

/// The instant `secs` seconds after 1970-01-01T00:00:00Z, written
/// `YYYY-MM-DDTHH:MM:SSZ`: its calendar date (the one date from 1970 on that
/// lies `secs / 86400` days after the epoch, see `law_civil_date_unique`) and
/// its time of day.
pub fn iso8601_utc(secs: u64) -> (r: String)
    ensures
        exists|y: int, m: int, d: int|
            #![trigger valid_date(y, m, d)]
            valid_date(y, m, d) && days_from_civil(y, m, d) == secs / 86400 && r@ == iso8601_text(
                y,
                m,
                d,
                ((secs % 86400) / 3600) as int,
                ((secs % 86400) % 3600 / 60) as int,
                ((secs % 86400) % 60) as int,
            ),
{
    let days: u64 = secs / 86400;
    let tod: u64 = secs % 86400;
    let hh: u64 = tod / 3600;
    let mi: u64 = tod % 3600 / 60;
    let ss: u64 = tod % 60;
    let (y, m, d) = civil_from_days(days);
    let mut v = padded_chars(y, 4);
    text::push_str(&mut v, "-");
    let pm = padded_chars(m, 2);
    text::push_all(&mut v, &pm);
    text::push_str(&mut v, "-");
    let pd = padded_chars(d, 2);
    text::push_all(&mut v, &pd);
    text::push_str(&mut v, "T");
    let ph = padded_chars(hh, 2);
    text::push_all(&mut v, &ph);
    text::push_str(&mut v, ":");
    let pmi = padded_chars(mi, 2);
    text::push_all(&mut v, &pmi);
    text::push_str(&mut v, ":");
    let ps = padded_chars(ss, 2);
    text::push_all(&mut v, &ps);
    text::push_str(&mut v, "Z");
    proof {
        assert(valid_date(y as int, m as int, d as int));
        assert(v@ =~= iso8601_text(
            y as int,
            m as int,
            d as int,
            hh as int,
            mi as int,
            ss as int,
        ));
    }
    text::string_from_chars(&v)
}

/// Days of the year before month `m` of year `y`.
pub open spec fn month_offset(y: int, m: int) -> int {
    days_before_month(m) + if m > 2 && is_leap(y) {
        1int
    } else {
        0int
    }
}

/// Day 0 of year `y`, counted from 1970-01-01.
pub open spec fn year_base(y: int) -> int {
    365 * (y - 1970) + leaps_through(y - 1) - leaps_through(1969)
}

proof fn lemma_next_year_base(y: int)
    requires
        y >= 1,
    ensures
        year_base(y + 1) == year_base(y) + if is_leap(y) { 366int } else { 365int },
{
}

proof fn lemma_year_base_grows(y1: int, y2: int)
    requires
        1 <= y1 < y2,
    ensures
        year_base(y2) >= year_base(y1 + 1),
    decreases y2 - y1,
{
    if y2 > y1 + 1 {
        lemma_year_base_grows(y1, y2 - 1);
        lemma_next_year_base(y2 - 1);
    }
}

proof fn lemma_month_offsets(y: int, m1: int, m2: int)
    requires
        1 <= m1 < m2 <= 12,
    ensures
        month_offset(y, m1) + month_len(y, m1) <= month_offset(y, m2),
{
}

proof fn lemma_date_before(y1: int, m1: int, d1: int, y2: int, m2: int, d2: int)
    requires
        valid_date(y1, m1, d1),
        valid_date(y2, m2, d2),
        y1 < y2 || (y1 == y2 && m1 < m2) || (y1 == y2 && m1 == m2 && d1 < d2),
    ensures
        days_from_civil(y1, m1, d1) < days_from_civil(y2, m2, d2),
{
    assert(days_from_civil(y1, m1, d1) == year_base(y1) + month_offset(y1, m1) + d1 - 1);
    assert(days_from_civil(y2, m2, d2) == year_base(y2) + month_offset(y2, m2) + d2 - 1);
    if y1 < y2 {
        if m1 < 12 {
            lemma_month_offsets(y1, m1, 12);
        }
        assert(month_offset(y1, m1) + d1 - 1 < if is_leap(y1) { 366int } else { 365int });
        lemma_next_year_base(y1);
        lemma_year_base_grows(y1, y2);
    } else if m1 < m2 {
        lemma_month_offsets(y1, m1, m2);
    }
}

/// Two dates from 1970 on that lie the same number of days after the epoch
/// are the same date.
pub proof fn law_civil_date_unique(y1: int, m1: int, d1: int, y2: int, m2: int, d2: int)
    requires
        valid_date(y1, m1, d1),
        valid_date(y2, m2, d2),
        days_from_civil(y1, m1, d1) == days_from_civil(y2, m2, d2),
    ensures
        y1 == y2,
        m1 == m2,
        d1 == d2,
{
    if y1 < y2 || (y1 == y2 && m1 < m2) || (y1 == y2 && m1 == m2 && d1 < d2) {
        lemma_date_before(y1, m1, d1, y2, m2, d2);
    } else if y2 < y1 || (y1 == y2 && m2 < m1) || (y1 == y2 && m1 == m2 && d2 < d1) {
        lemma_date_before(y2, m2, d2, y1, m1, d1);
    }
}

/// `10` to the power `w`.
pub open spec fn ten_pow(w: nat) -> nat
    decreases w,
{
    if w == 0 {
        1
    } else {
        10 * ten_pow((w - 1) as nat)
    }
}

proof fn lemma_decimal_short(n: nat, w: nat)
    requires
        w >= 1,
        n < ten_pow(w),
    ensures
        numbers::decimal(n).len() <= w,
    decreases w,
{
    if n >= 10 {
        assert(w >= 2) by {
            if w == 1 {
                reveal_with_fuel(ten_pow, 2);
                assert(ten_pow(1) == 10);
            }
        }
        assert(n / 10 < ten_pow((w - 1) as nat));
        lemma_decimal_short(n / 10, (w - 1) as nat);
    }
}

proof fn lemma_zeros_value(z: Seq<char>, s: Seq<char>)
    requires
        forall|i: int| 0 <= i < z.len() ==> z[i] == '0',
    ensures
        numbers::digits_value(z + s) == numbers::digits_value(s),
    decreases s.len() + z.len(),
{
    if s.len() > 0 {
        assert((z + s).drop_last() =~= z + s.drop_last());
        assert((z + s).last() == s.last());
        lemma_zeros_value(z, s.drop_last());
    } else if z.len() > 0 {
        assert(z + s =~= z);
        assert(z.drop_last() + s =~= z.drop_last());
        lemma_zeros_value(z.drop_last(), s);
        assert(numbers::digit_value('0') == 0);
    } else {
        assert(z + s =~= s);
    }
}

/// A number below `10^w`, zero-padded to `w` digits, is `w` digits that
/// read back as the number.
proof fn lemma_padded_fits(n: nat, w: nat)
    requires
        w >= 1,
        n < ten_pow(w),
    ensures
        padded(n as int, w).len() == w,
        numbers::all_digits(padded(n as int, w)),
        numbers::digits_value(padded(n as int, w)) == n,
{
    lemma_decimal_short(n, w);
    numbers::lemma_decimal_value(n);
    let dn = numbers::decimal(n);
    if dn.len() < w {
        let z = Seq::new((w - dn.len()) as nat, |i: int| '0');
        lemma_zeros_value(z, dn);
        assert(numbers::is_digit('0'));
        assert forall|i: int| 0 <= i < (z + dn).len() implies numbers::is_digit((z + dn)[i]) by {
            if i >= z.len() {
                assert((z + dn)[i] == dn[i - z.len()]);
            }
        }
    }
}

/// Reading the fields of an ISO 8601 text back.
proof fn lemma_iso_fields(y: nat, m: nat, d: nat, hh: nat, mi: nat, ss: nat)
    requires
        y < 10000,
        m < 100,
        d < 100,
        hh < 100,
        mi < 100,
        ss < 100,
    ensures
        ({
            let t = iso8601_text(y as int, m as int, d as int, hh as int, mi as int, ss as int);
            &&& t.len() == 20
            &&& t[4] == '-' && t[7] == '-' && t[10] == 'T' && t[13] == ':' && t[16] == ':' && t[19] == 'Z'
            &&& forall|i: int|
                0 <= i < 20 && i != 4 && i != 7 && i != 10 && i != 13 && i != 16 && i != 19
                    ==> numbers::is_digit(#[trigger] t[i])
            &&& numbers::digits_value(t.subrange(0, 4)) == y
            &&& numbers::digits_value(t.subrange(5, 7)) == m
            &&& numbers::digits_value(t.subrange(8, 10)) == d
            &&& numbers::digits_value(t.subrange(11, 13)) == hh
            &&& numbers::digits_value(t.subrange(14, 16)) == mi
            &&& numbers::digits_value(t.subrange(17, 19)) == ss
        }),
{
    reveal_strlit("-");
    reveal_strlit("T");
    reveal_strlit(":");
    reveal_strlit("Z");
    reveal_with_fuel(ten_pow, 5);
    lemma_padded_fits(y, 4);
    lemma_padded_fits(m, 2);
    lemma_padded_fits(d, 2);
    lemma_padded_fits(hh, 2);
    lemma_padded_fits(mi, 2);
    lemma_padded_fits(ss, 2);
    let py = padded(y as int, 4);
    let pm = padded(m as int, 2);
    let pd = padded(d as int, 2);
    let ph = padded(hh as int, 2);
    let pi = padded(mi as int, 2);
    let ps = padded(ss as int, 2);
    let t = iso8601_text(y as int, m as int, d as int, hh as int, mi as int, ss as int);
    assert(t =~= py + seq!['-'] + pm + seq!['-'] + pd + seq!['T'] + ph + seq![':'] + pi + seq![':'] + ps
        + seq!['Z']);
    assert(t.subrange(0, 4) =~= py);
    assert(t.subrange(5, 7) =~= pm);
    assert(t.subrange(8, 10) =~= pd);
    assert(t.subrange(11, 13) =~= ph);
    assert(t.subrange(14, 16) =~= pi);
    assert(t.subrange(17, 19) =~= ps);
    assert forall|i: int|
        0 <= i < 20 && i != 4 && i != 7 && i != 10 && i != 13 && i != 16 && i != 19
            implies numbers::is_digit(#[trigger] t[i]) by {
        if i < 4 {
            assert(t[i] == py[i]);
        } else if i < 7 {
            assert(t[i] == pm[i - 5]);
        } else if i < 10 {
            assert(t[i] == pd[i - 8]);
        } else if i < 13 {
            assert(t[i] == ph[i - 11]);
        } else if i < 16 {
            assert(t[i] == pi[i - 14]);
        } else {
            assert(t[i] == ps[i - 17]);
        }
    }
}

/// Before the year 10000, the text `iso8601_utc` gives for `secs` has the
/// fixed shape `DDDD-DD-DDTDD:DD:DDZ`, and its fields read back denote
/// exactly `secs`: the day number of the date times 86400, plus the time of
/// day.
pub proof fn law_iso8601_shape(secs: u64, y: int, m: int, d: int)
    requires
        secs < 253402300800,
        valid_date(y, m, d),
        days_from_civil(y, m, d) == secs / 86400,
    ensures
        ({
            let hh = (secs % 86400) / 3600;
            let mi = (secs % 86400) % 3600 / 60;
            let ss = (secs % 86400) % 60;
            let t = iso8601_text(y, m, d, hh as int, mi as int, ss as int);
            &&& y < 10000
            &&& t.len() == 20
            &&& t[4] == '-' && t[7] == '-' && t[10] == 'T' && t[13] == ':' && t[16] == ':' && t[19] == 'Z'
            &&& forall|i: int|
                0 <= i < 20 && i != 4 && i != 7 && i != 10 && i != 13 && i != 16 && i != 19
                    ==> numbers::is_digit(#[trigger] t[i])
            &&& numbers::digits_value(t.subrange(0, 4)) == y
            &&& numbers::digits_value(t.subrange(5, 7)) == m
            &&& numbers::digits_value(t.subrange(8, 10)) == d
            &&& numbers::digits_value(t.subrange(11, 13)) == hh
            &&& numbers::digits_value(t.subrange(14, 16)) == mi
            &&& numbers::digits_value(t.subrange(17, 19)) == ss
            &&& days_from_civil(y, m, d) * 86400 + hh * 3600 + mi * 60 + ss == secs
        }),
{
    assert(days_from_civil(10000, 1, 1) == 2932897);
    assert(valid_date(10000, 1, 1));
    if y >= 10000 {
        if !(y == 10000 && m == 1 && d == 1) {
            lemma_date_before(10000, 1, 1, y, m, d);
        }
    }
    let tod = secs % 86400;
    lemma_iso_fields(y as nat, m as nat, d as nat, (tod / 3600) as nat, (tod % 3600 / 60) as nat, (tod
        % 60) as nat);
}

} // verus!
