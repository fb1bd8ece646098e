//! Rendering of SPARQL results: terms as text, IRIs with their usual
//! prefixes, and rows as CSV, TSV or JSON records.
use vstd::prelude::*;
use crate::text;
use vstd::utf8::encode_utf8;
use vstd::string::StringSliceAdditionalSpecFns;

verus! {

/// An RDF term as results hold it.
#[derive(Debug)]
pub enum RdfTerm {
    /// An IRI.
    NamedNode(String),
    /// A blank node with its label.
    BlankNode(String),
    /// A literal: lexical value, datatype IRI and language tag if any.
    Literal { value: String, datatype: String, language: Option<String> },
    /// Any other term, already written out.
    Other(String),
}

/// The prefixes that IRIs are shortened with, in the order they are tried.
pub open spec fn iri_prefixes() -> Seq<(Seq<char>, Seq<char>)> {
    seq![
        ("https://repolex.ai/ontology/ast-x#"@, "ast-x:"@),
        ("https://repolex.ai/ontology/ast#"@, "ast:"@),
        ("https://repolex.ai/ontology/lsp-x#"@, "lsp-x:"@),
        ("https://repolex.ai/ontology/lsp#"@, "lsp:"@),
        ("https://repolex.ai/ontology/sem#"@, "sem:"@),
        ("https://repolex.ai/ontology/extracts/gitpython-developers/GitPython/v3.1.46/core/"@, "git:"@),
        ("https://repolex.ai/ontology/repolex/security/"@, "security:"@),
        ("https://repolex.ai/r/"@, "r:"@),
        ("http://www.w3.org/1999/02/22-rdf-syntax-ns#"@, "rdf:"@),
        ("http://www.w3.org/2000/01/rdf-schema#"@, "rdfs:"@),
        ("http://www.w3.org/2001/XMLSchema#"@, "xsd:"@),
        ("http://www.w3.org/ns/shacl#"@, "sh:"@),
    ]
}

fn iri_prefix_table() -> (t: Vec<(&'static str, &'static str)>)
    ensures
        t@.len() == iri_prefixes().len(),
        forall|i: int|
            0 <= i < t@.len() ==> (#[trigger] t@[i]).0@ == iri_prefixes()[i].0 && t@[i].1@
                == iri_prefixes()[i].1,
{
    let mut t = Vec::new();
    t.push(("https://repolex.ai/ontology/ast-x#", "ast-x:"));
    t.push(("https://repolex.ai/ontology/ast#", "ast:"));
    t.push(("https://repolex.ai/ontology/lsp-x#", "lsp-x:"));
    t.push(("https://repolex.ai/ontology/lsp#", "lsp:"));
    t.push(("https://repolex.ai/ontology/sem#", "sem:"));
    t.push(
        ("https://repolex.ai/ontology/extracts/gitpython-developers/GitPython/v3.1.46/core/", "git:"),
    );
    t.push(("https://repolex.ai/ontology/repolex/security/", "security:"));
    t.push(("https://repolex.ai/r/", "r:"));
    t.push(("http://www.w3.org/1999/02/22-rdf-syntax-ns#", "rdf:"));
    t.push(("http://www.w3.org/2000/01/rdf-schema#", "rdfs:"));
    t.push(("http://www.w3.org/2001/XMLSchema#", "xsd:"));
    t.push(("http://www.w3.org/ns/shacl#", "sh:"));
    t
}

/// An IRI shortened with the first prefix it starts with; unchanged when it
/// starts with none.
pub open spec fn compact_iri_spec(iri: Seq<char>) -> Seq<char> {
    let p = |e: (Seq<char>, Seq<char>)| text::starts_with_seq(iri, e.0);
    if text::any_where(iri_prefixes(), p) {
        let e = iri_prefixes()[text::first_where(iri_prefixes(), p)];
        e.1 + iri.skip(e.0.len() as int)
    } else {
        iri
    }
}

/// Shortens an IRI with the first known prefix it starts with.
pub fn compact_iri(iri: &str) -> (r: String)
    ensures
        r@ == compact_iri_spec(iri@),
{
    let ghost p = |e: (Seq<char>, Seq<char>)| text::starts_with_seq(iri@, e.0);
    let t = iri_prefix_table();
    let v = text::chars_of(iri);
    let mut i: usize = 0;
    while i < t.len()
        invariant
            i <= t@.len(),
            t@.len() == iri_prefixes().len(),
            forall|k: int|
                0 <= k < t@.len() ==> (#[trigger] t@[k]).0@ == iri_prefixes()[k].0 && t@[k].1@
                    == iri_prefixes()[k].1,
            v@ == iri@,
            p == (|e: (Seq<char>, Seq<char>)| text::starts_with_seq(iri@, e.0)),
            forall|j: int| 0 <= j < i ==> !p(#[trigger] iri_prefixes()[j]),
        decreases t.len() - i,
    {
        let (prefix, short) = t[i];
        if text::str_starts_with(iri, prefix) {
            proof {
                assert(p(iri_prefixes()[i as int]));
                assert(text::is_first_where(iri_prefixes(), p, i as int));
                text::lemma_first_where(iri_prefixes(), p, i as int);
            }
            let pl = text::chars_of(prefix);
            let mut out = text::chars_of(short);
            let rest = text::slice_chars(&v, pl.len(), v.len());
            text::push_all(&mut out, &rest);
            assert(rest@ =~= iri@.skip(prefix@.len() as int));
            return text::string_from_chars(&out);
        }
        i = i + 1;
    }
    iri.to_owned()
}

/// XML Schema datatypes whose literals are shown by their value alone.
pub open spec fn plain_datatype(dt: Seq<char>) -> bool {
    ||| dt == "http://www.w3.org/2001/XMLSchema#string"@
    ||| dt == "http://www.w3.org/2001/XMLSchema#integer"@
    ||| dt == "http://www.w3.org/2001/XMLSchema#decimal"@
    ||| dt == "http://www.w3.org/2001/XMLSchema#double"@
    ||| dt == "http://www.w3.org/2001/XMLSchema#boolean"@
}

/// How a term is shown in a result table: IRIs compacted, blank nodes as
/// `_:label`, plain literals by value, tagged literals as `value@lang`,
/// other literals as `value^^datatype` with the datatype compacted.
pub open spec fn format_term_spec(t: RdfTerm) -> Seq<char> {
    match t {
        RdfTerm::NamedNode(n) => compact_iri_spec(n@),
        RdfTerm::BlankNode(b) => "_:"@ + b@,
        RdfTerm::Literal { value, datatype, language } => {
            if plain_datatype(datatype@) {
                value@
            } else {
                match language {
                    Some(l) => value@ + "@"@ + l@,
                    None => value@ + "^^"@ + compact_iri_spec(datatype@),
                }
            }
        },
        RdfTerm::Other(s) => s@,
    }
}

/// Shows a term as [`format_term_spec`] says.
pub fn format_term(t: &RdfTerm) -> (r: String)
    ensures
        r@ == format_term_spec(*t),
{
    match t {
        RdfTerm::NamedNode(n) => compact_iri(n.as_str()),
        RdfTerm::BlankNode(b) => {
            let mut v = text::chars_of("_:");
            text::push_str(&mut v, b.as_str());
            text::string_from_chars(&v)
        },
        RdfTerm::Literal { value, datatype, language } => {
            let d = datatype.as_str();
            if text::str_eq(d, "http://www.w3.org/2001/XMLSchema#string") || text::str_eq(
                d,
                "http://www.w3.org/2001/XMLSchema#integer",
            ) || text::str_eq(d, "http://www.w3.org/2001/XMLSchema#decimal") || text::str_eq(
                d,
                "http://www.w3.org/2001/XMLSchema#double",
            ) || text::str_eq(d, "http://www.w3.org/2001/XMLSchema#boolean") {
                value.clone()
            } else {
                match language {
                    Some(l) => {
                        let mut v = text::chars_of(value.as_str());
                        text::push_str(&mut v, "@");
                        text::push_str(&mut v, l.as_str());
                        text::string_from_chars(&v)
                    },
                    None => {
                        let mut v = text::chars_of(value.as_str());
                        text::push_str(&mut v, "^^");
                        let c = compact_iri(d);
                        text::push_str(&mut v, c.as_str());
                        text::string_from_chars(&v)
                    },
                }
            }
        },
        RdfTerm::Other(s) => s.clone(),
    }
}

/// A CSV cell: quoted, with its quotes doubled, when it holds a comma, a
/// quote or a newline; as it is otherwise.
pub open spec fn csv_cell_spec(cell: Seq<char>) -> Seq<char> {
    if text::has_char(cell, ',') || text::has_char(cell, '"') || text::has_char(cell, '\n') {
        "\""@ + text::replace_seq(cell, "\""@, "\"\""@) + "\""@
    } else {
        cell
    }
}

/// Writes one CSV cell.
pub fn csv_cell(cell: &str) -> (r: String)
    ensures
        r@ == csv_cell_spec(cell@),
{
    let v = text::chars_of(cell);
    if text::find_char(&v, ',').is_some() || text::find_char(&v, '"').is_some()
        || text::find_char(&v, '\n').is_some() {
        let q = text::chars_of("\"");
        let qq = text::chars_of("\"\"");
        proof {
            reveal_strlit("\"");
        }
        let esc = text::replace_chars(&v, &q, &qq);
        let mut out = text::chars_of("\"");
        text::push_all(&mut out, &esc);
        text::push_str(&mut out, "\"");
        text::string_from_chars(&out)
    } else {
        cell.to_owned()
    }
}

/// One CSV line: the cells written as CSV cells, joined with commas.
pub fn csv_line(cells: &Vec<String>) -> (r: String)
    ensures
        r@ == text::join_seq(cells@.map_values(|c: String| csv_cell_spec(c@)), ","@),
{
    let mut esc: Vec<String> = Vec::new();
    let mut i: usize = 0;
    while i < cells.len()
        invariant
            i <= cells@.len(),
            esc@.map_values(|c: String| c@) == cells@.take(i as int).map_values(
                |c: String| csv_cell_spec(c@),
            ),
        decreases cells.len() - i,
    {
        let ghost o = esc@;
        esc.push(csv_cell(cells[i].as_str()));
        assert(esc@.map_values(|c: String| c@) =~= o.map_values(|c: String| c@).push(
            csv_cell_spec(cells@[i as int]@),
        ));
        assert(cells@.take(i + 1).map_values(|c: String| csv_cell_spec(c@)) =~= cells@.take(
            i as int,
        ).map_values(|c: String| csv_cell_spec(c@)).push(csv_cell_spec(cells@[i as int]@)));
        i = i + 1;
    }
    assert(cells@.take(cells@.len() as int) =~= cells@);
    text::join_strings(&esc, ",")
}

/// One TSV line: the cells joined with tabs.
pub fn tsv_line(cells: &Vec<String>) -> (r: String)
    ensures
        r@ == text::join_seq(cells@.map_values(|c: String| c@), "\t"@),
{
    text::join_strings(cells, "\t")
}

/// Output formats for result rows.
#[derive(Debug, Clone, Copy, PartialEq, Eq, Structural)]
pub enum RowFormat {
    Table,
    Csv,
    Tsv,
    Json,
}

/// The row format a name selects.
pub open spec fn row_format_spec(name: Seq<char>) -> Option<RowFormat> {
    if name == "table"@ {
        Some(RowFormat::Table)
    } else if name == "csv"@ {
        Some(RowFormat::Csv)
    } else if name == "tsv"@ {
        Some(RowFormat::Tsv)
    } else if name == "json"@ {
        Some(RowFormat::Json)
    } else {
        None
    }
}

/// The message for an unknown row format.
pub open spec fn unknown_format_message(name: Seq<char>) -> Seq<char> {
    "Unknown format '"@ + name + "'. Supported: table, csv, tsv, json"@
}

/// Chooses the row format by name; an unknown name is an error with its
/// message.
pub fn parse_row_format(name: &str) -> (r: Result<RowFormat, String>)
    ensures
        match r {
            Ok(f) => row_format_spec(name@) == Some(f),
            Err(m) => row_format_spec(name@) is None && m@ == unknown_format_message(name@),
        },
{
    if text::str_eq(name, "table") {
        Ok(RowFormat::Table)
    } else if text::str_eq(name, "csv") {
        Ok(RowFormat::Csv)
    } else if text::str_eq(name, "tsv") {
        Ok(RowFormat::Tsv)
    } else if text::str_eq(name, "json") {
        Ok(RowFormat::Json)
    } else {
        let mut v = text::chars_of("Unknown format '");
        text::push_str(&mut v, name);
        text::push_str(&mut v, "'. Supported: table, csv, tsv, json");
        Err(text::string_from_chars(&v))
    }
}

/// Serialisations for graph results.
#[derive(Debug, Clone, Copy, PartialEq, Eq, Structural)]
pub enum GraphFormat {
    Turtle,
    NTriples,
    NQuads,
    JsonLd,
}

/// The graph serialisation a format name selects: N-Triples, N-Quads or
/// JSON-LD by their names, Turtle for any other name.
pub open spec fn graph_format_spec(name: Seq<char>) -> GraphFormat {
    if name == "ntriples"@ || name == "nt"@ {
        GraphFormat::NTriples
    } else if name == "nquads"@ || name == "nq"@ {
        GraphFormat::NQuads
    } else if name == "json-ld"@ || name == "jsonld"@ {
        GraphFormat::JsonLd
    } else {
        GraphFormat::Turtle
    }
}

/// Chooses the graph serialisation by name.
pub fn graph_format(name: &str) -> (r: GraphFormat)
    ensures
        r == graph_format_spec(name@),
{
    if text::str_eq(name, "ntriples") || text::str_eq(name, "nt") {
        GraphFormat::NTriples
    } else if text::str_eq(name, "nquads") || text::str_eq(name, "nq") {
        GraphFormat::NQuads
    } else if text::str_eq(name, "json-ld") || text::str_eq(name, "jsonld") {
        GraphFormat::JsonLd
    } else {
        GraphFormat::Turtle
    }
}

/// One JSON record of a row: each header with the cell at its position, or
/// an empty text when the row is shorter.
pub open spec fn json_record_spec(headers: Seq<String>, row: Seq<String>) -> Seq<
    (Seq<char>, Seq<char>),
> {
    Seq::new(
        headers.len(),
        |i: int|
            (
                headers[i]@,
                if i < row.len() {
                    row[i]@
                } else {
                    Seq::empty()
                },
            ),
    )
}

/// The header and cell pairs of one row, as [`json_record_spec`] says.
pub fn json_record(headers: &Vec<String>, row: &Vec<String>) -> (r: Vec<(String, String)>)
    ensures
        r@.map_values(|p: (String, String)| (p.0@, p.1@)) == json_record_spec(headers@, row@),
{
    let mut out: Vec<(String, String)> = Vec::new();
    let mut i: usize = 0;
    while i < headers.len()
        invariant
            i <= headers@.len(),
            out@.len() == i,
            forall|k: int|
                0 <= k < i ==> (#[trigger] out@[k]).0@ == json_record_spec(headers@, row@)[k].0
                    && out@[k].1@ == json_record_spec(headers@, row@)[k].1,
        decreases headers.len() - i,
    {
        let cell = if i < row.len() {
            row[i].clone()
        } else {
            String::new()
        };
        out.push((headers[i].clone(), cell));
        i = i + 1;
    }
    assert(out@.map_values(|p: (String, String)| (p.0@, p.1@)) =~= json_record_spec(
        headers@,
        row@,
    ));
    out
}


/// Length of a text in UTF-8 bytes, as `str::len` counts it.
pub open spec fn byte_len(s: Seq<char>) -> nat {
    encode_utf8(s).len()
}

/// Width a row gives column `i`: its cell's length in bytes, at most 80;
/// 0 when the row has no such cell.
pub open spec fn cell_width(row: Seq<String>, i: int) -> nat {
    if 0 <= i < row.len() {
        if byte_len(row[i]@) < 80 {
            byte_len(row[i]@)
        } else {
            80
        }
    } else {
        0
    }
}

/// Width of column `i`: the larger of its header's length in bytes and the
/// widths the rows give it.
pub open spec fn col_width(header: Seq<char>, rows: Seq<Vec<String>>, i: int) -> nat
    decreases rows.len(),
{
    if rows.len() == 0 {
        byte_len(header)
    } else {
        let w = col_width(header, rows.drop_last(), i);
        let c = cell_width(rows.last()@, i);
        if w < c {
            c
        } else {
            w
        }
    }
}

/// Widths of all columns.
pub open spec fn widths_spec(headers: Seq<String>, rows: Seq<Vec<String>>) -> Seq<nat> {
    Seq::new(headers.len(), |i: int| col_width(headers[i]@, rows, i))
}

/// A text padded with spaces on the right to `w` characters (`{:<w$}`).
pub open spec fn pad_spec(s: Seq<char>, w: nat) -> Seq<char> {
    if s.len() < w {
        s + Seq::new((w - s.len()) as nat, |j: int| ' ')
    } else {
        s
    }
}

/// A cell as a table shows it: a cell longer than 80 bytes is cut to its
/// first 77 bytes followed by `...`.
pub open spec fn shown_cell(cell: Seq<char>) -> Seq<char> {
    if byte_len(cell) > 80 {
        vstd::utf8::decode_utf8(encode_utf8(cell).take(77)) + "..."@
    } else {
        cell
    }
}

/// The header line: headers padded to their widths, two spaces apart.
pub open spec fn header_line(headers: Seq<String>, widths: Seq<nat>) -> Seq<char> {
    text::join_seq(Seq::new(headers.len(), |i: int| pad_spec(headers[i]@, widths[i])), "  "@)
}

/// The line under the headers: each column's width in dashes, two spaces
/// apart.
pub open spec fn separator_line(widths: Seq<nat>) -> Seq<char> {
    text::join_seq(Seq::new(widths.len(), |i: int| Seq::new(widths[i], |j: int| '-')), "  "@)
}

/// A row line: the cells that have a column, shown and padded, two spaces
/// apart.
pub open spec fn row_line(row: Seq<String>, widths: Seq<nat>) -> Seq<char> {
    let n = if row.len() < widths.len() { row.len() } else { widths.len() };
    text::join_seq(Seq::new(n, |i: int| pad_spec(shown_cell(row[i]@), widths[i])), "  "@)
}

/// The lines of a result table: `(no results)` when there is no row, else
/// the header line, the dashes, and one line per row.
pub open spec fn table_spec(headers: Seq<String>, rows: Seq<Vec<String>>) -> Seq<Seq<char>> {
    if rows.len() == 0 {
        seq!["(no results)"@]
    } else {
        let w = widths_spec(headers, rows);
        seq![header_line(headers, w), separator_line(w)] + Seq::new(
            rows.len(),
            |k: int| row_line(rows[k]@, w),
        )
    }
}

/// Every cell longer than 80 bytes can be cut after its 77th byte.
pub open spec fn cuttable_cells(rows: Seq<Vec<String>>) -> bool {
    forall|k: int, i: int|
        0 <= k < rows.len() && 0 <= i < rows[k]@.len() && byte_len(#[trigger] rows[k]@[i]@) > 80
            ==> vstd::utf8::is_char_boundary(encode_utf8(rows[k]@[i]@), 77)
}

fn str_byte_len(s: &str) -> (n: usize)
    ensures
        n == byte_len(s@),
{
    s.as_bytes().len()
}

fn pad(s: &Vec<char>, w: usize) -> (r: String)
    ensures
        r@ == pad_spec(s@, w as nat),
{
    let mut v = text::slice_chars(s, 0, s.len());
    assert(v@ =~= s@);
    if v.len() < w {
        let n = w - v.len();
        let mut k: usize = 0;
        while k < n
            invariant
                k <= n,
                n == w - s@.len(),
                v@ == s@ + Seq::new(k as nat, |j: int| ' '),
            decreases n - k,
        {
            v.push(' ');
            k = k + 1;
            assert(v@ =~= s@ + Seq::new(k as nat, |j: int| ' '));
        }
    }
    text::string_from_chars(&v)
}

fn dashes(w: usize) -> (r: String)
    ensures
        r@ == Seq::new(w as nat, |j: int| '-'),
{
    let mut v: Vec<char> = Vec::new();
    let mut k: usize = 0;
    while k < w
        invariant
            k <= w,
            v@ == Seq::new(k as nat, |j: int| '-'),
        decreases w - k,
    {
        v.push('-');
        k = k + 1;
        assert(v@ =~= Seq::new(k as nat, |j: int| '-'));
    }
    text::string_from_chars(&v)
}

fn shown(cell: &str) -> (r: Vec<char>)
    requires
        byte_len(cell@) > 80 ==> vstd::utf8::is_char_boundary(encode_utf8(cell@), 77),
    ensures
        r@ == shown_cell(cell@),
{
    if cell.as_bytes().len() > 80 {
        let (head, _tail) = cell.split_at(77);
        let mut v = text::chars_of(head);
        text::push_str(&mut v, "...");
        proof {
            vstd::utf8::encode_utf8_decode_utf8(head@);
            assert(head.spec_bytes() =~= encode_utf8(cell@).take(77));
        }
        v
    } else {
        text::chars_of(cell)
    }
}

fn column_widths(headers: &Vec<String>, rows: &Vec<Vec<String>>) -> (w: Vec<usize>)
    ensures
        w@.len() == headers@.len(),
        forall|i: int| 0 <= i < w@.len() ==> w@[i] as nat == widths_spec(headers@, rows@)[i],
{
    let mut w: Vec<usize> = Vec::new();
    let mut i: usize = 0;
    while i < headers.len()
        invariant
            i <= headers@.len(),
            w@.len() == i,
            forall|m: int| 0 <= m < i ==> w@[m] as nat == widths_spec(headers@, rows@)[m],
        decreases headers.len() - i,
    {
        let mut cw = str_byte_len(headers[i].as_str());
        let mut k: usize = 0;
        assert(rows@.take(0) =~= Seq::<Vec<String>>::empty());
        while k < rows.len()
            invariant
                i < headers@.len(),
                k <= rows@.len(),
                cw as nat == col_width(headers@[i as int]@, rows@.take(k as int), i as int),
            decreases rows.len() - k,
        {
            proof {
                assert(rows@.take(k + 1).drop_last() =~= rows@.take(k as int));
                assert(rows@.take(k + 1).last() == rows@[k as int]);
            }
            let row = &rows[k];
            if i < row.len() {
                let b = str_byte_len(row[i].as_str());
                let c = if b < 80 { b } else { 80 };
                if cw < c {
                    cw = c;
                }
            }
            k = k + 1;
        }
        assert(rows@.take(rows@.len() as int) =~= rows@);
        w.push(cw);
        i = i + 1;
    }
    w
}

/// The lines of a result table, as [`table_spec`] says.
pub fn table_lines(headers: &Vec<String>, rows: &Vec<Vec<String>>) -> (r: Vec<String>)
    requires
        cuttable_cells(rows@),
    ensures
        r@.map_values(|s: String| s@) == table_spec(headers@, rows@),
{
    let mut out: Vec<String> = Vec::new();
    if rows.len() == 0 {
        out.push("(no results)".to_owned());
        assert(out@.map_values(|s: String| s@) =~= seq!["(no results)"@]);
        return out;
    }
    let widths = column_widths(headers, rows);
    let ghost ws = widths_spec(headers@, rows@);
    assert(widths@.map_values(|x: usize| x as nat) =~= ws);
    let mut hcells: Vec<String> = Vec::new();
    let mut dcells: Vec<String> = Vec::new();
    let mut i: usize = 0;
    while i < headers.len()
        invariant
            i <= headers@.len(),
            widths@.len() == headers@.len(),
            ws == widths_spec(headers@, rows@),
            forall|m: int| 0 <= m < widths@.len() ==> widths@[m] as nat == ws[m],
            hcells@.map_values(|s: String| s@) == Seq::new(
                i as nat,
                |m: int| pad_spec(headers@[m]@, ws[m]),
            ),
            dcells@.map_values(|s: String| s@) == Seq::new(i as nat, |m: int| Seq::new(ws[m], |j: int| '-')),
        decreases headers.len() - i,
    {
        let hv = text::chars_of(headers[i].as_str());
        let ghost hm0 = hcells@.map_values(|s: String| s@);
        let ghost dm0 = dcells@.map_values(|s: String| s@);
        assert(widths@[i as int] as nat == ws[i as int]);
        let x = pad(&hv, widths[i]);
        let y = dashes(widths[i]);
        let ghost xv = x@;
        let ghost yv = y@;
        hcells.push(x);
        dcells.push(y);
        assert(hcells@.map_values(|s: String| s@) =~= hm0.push(xv));
        assert(dcells@.map_values(|s: String| s@) =~= dm0.push(yv));
        i = i + 1;
        assert(hcells@.map_values(|s: String| s@) =~= Seq::new(
            i as nat,
            |m: int| pad_spec(headers@[m]@, ws[m]),
        ));
        assert(dcells@.map_values(|s: String| s@) =~= Seq::new(i as nat, |m: int| Seq::new(ws[m], |j: int| '-')));
    }
    out.push(text::join_strings(&hcells, "  "));
    assert(Seq::new(ws.len(), |m: int| Seq::new(ws[m], |j: int| '-')) =~= Seq::new(
        headers@.len(),
        |m: int| Seq::new(ws[m], |j: int| '-'),
    ));
    out.push(text::join_strings(&dcells, "  "));
    let mut k: usize = 0;
    while k < rows.len()
        invariant
            k <= rows@.len(),
            rows@.len() > 0,
            cuttable_cells(rows@),
            widths@.len() == headers@.len(),
            ws == widths_spec(headers@, rows@),
            forall|m: int| 0 <= m < widths@.len() ==> widths@[m] as nat == ws[m],
            out@.len() == k + 2,
            out@[0]@ == header_line(headers@, ws),
            out@[1]@ == separator_line(ws),
            forall|q: int| 2 <= q < k + 2 ==> (#[trigger] out@[q])@ == row_line(rows@[q - 2]@, ws),
        decreases rows.len() - k,
    {
        let row = &rows[k];
        let n = if row.len() < widths.len() { row.len() } else { widths.len() };
        let mut cells: Vec<String> = Vec::new();
        let mut i: usize = 0;
        while i < n
            invariant
                i <= n,
                n <= row@.len(),
                n <= widths@.len(),
                row == &rows@[k as int],
                k < rows@.len(),
                cuttable_cells(rows@),
                forall|m: int| 0 <= m < widths@.len() ==> widths@[m] as nat == ws[m],
                cells@.map_values(|s: String| s@) == Seq::new(
                    i as nat,
                    |m: int| pad_spec(shown_cell(row@[m]@), ws[m]),
                ),
            decreases n - i,
        {
            assert(byte_len(rows@[k as int]@[i as int]@) > 80 ==> vstd::utf8::is_char_boundary(
                encode_utf8(rows@[k as int]@[i as int]@),
                77,
            ));
            let sv = shown(row[i].as_str());
            let ghost cm0 = cells@.map_values(|s: String| s@);
            assert(widths@[i as int] as nat == ws[i as int]);
            let x = pad(&sv, widths[i]);
            let ghost xv = x@;
            cells.push(x);
            assert(cells@.map_values(|s: String| s@) =~= cm0.push(xv));
            i = i + 1;
            assert(cells@.map_values(|s: String| s@) =~= Seq::new(
                i as nat,
                |m: int| pad_spec(shown_cell(row@[m]@), ws[m]),
            ));
        }
        out.push(text::join_strings(&cells, "  "));
        k = k + 1;
    }
    assert(out@.map_values(|s: String| s@) =~= table_spec(headers@, rows@));
    out
}

} // verus!
