//! Reading SPARQL JSON results into rows, and the addresses of the local
//! background server.
use vstd::prelude::*;
use crate::serve;
use crate::text;

verus! {

/// One solution of a JSON result: each bound variable with the `value` of
/// its term, when that value is a string.
pub type Binding = Vec<(String, Option<String>)>;

/// The text a binding holds for a variable: the value of the first entry
/// for it, or an empty text when there is none or its value is not a string.
pub open spec fn binding_value(b: Seq<(String, Option<String>)>, var: Seq<char>) -> Seq<char> {
    let p = |e: (String, Option<String>)| e.0@ == var;
    if text::any_where(b, p) {
        match b[text::first_where(b, p)].1 {
            Some(v) => v@,
            None => Seq::empty(),
        }
    } else {
        Seq::empty()
    }
}

fn lookup(b: &Binding, var: &str) -> (r: String)
    ensures
        r@ == binding_value(b@, var@),
{
    let ghost p = |e: (String, Option<String>)| e.0@ == var@;
    let mut i: usize = 0;
    while i < b.len()
        invariant
            i <= b@.len(),
            p == (|e: (String, Option<String>)| e.0@ == var@),
            forall|j: int| 0 <= j < i ==> !p(#[trigger] b@[j]),
        decreases b.len() - i,
    {
        if text::str_eq(b[i].0.as_str(), var) {
            proof {
                assert(p(b@[i as int]));
                assert(text::is_first_where(b@, p, i as int));
                text::lemma_first_where(b@, p, i as int);
            }
            return match &b[i].1 {
                Some(v) => v.clone(),
                None => String::new(),
            };
        }
        i = i + 1;
    }
    String::new()
}

/// The rows of a JSON result: one per solution, with one cell per variable
/// in the order of the variables.
pub fn rows_from_bindings(vars: &Vec<String>, bindings: &Vec<Binding>) -> (rows: Vec<Vec<String>>)
    ensures
        rows@.len() == bindings@.len(),
        forall|i: int|
            0 <= i < rows@.len() ==> (#[trigger] rows@[i])@.len() == vars@.len() && forall|k: int|
                0 <= k < vars@.len() ==> (#[trigger] rows@[i]@[k])@ == binding_value(
                    bindings@[i]@,
                    vars@[k]@,
                ),
{
    let mut rows: Vec<Vec<String>> = Vec::new();
    let mut i: usize = 0;
    while i < bindings.len()
        invariant
            i <= bindings@.len(),
            rows@.len() == i,
            forall|j: int|
                0 <= j < i ==> (#[trigger] rows@[j])@.len() == vars@.len() && forall|k: int|
                    0 <= k < vars@.len() ==> (#[trigger] rows@[j]@[k])@ == binding_value(
                        bindings@[j]@,
                        vars@[k]@,
                    ),
        decreases bindings.len() - i,
    {
        let b = &bindings[i];
        let mut row: Vec<String> = Vec::new();
        let mut k: usize = 0;
        while k < vars.len()
            invariant
                k <= vars@.len(),
                row@.len() == k,
                forall|m: int| 0 <= m < k ==> (#[trigger] row@[m])@ == binding_value(b@, vars@[m]@),
            decreases vars.len() - k,
        {
            row.push(lookup(b, vars[k].as_str()));
            k = k + 1;
        }
        rows.push(row);
        i = i + 1;
    }
    rows
}

/// The query address of the local background server.
pub fn local_query_url(port: u16) -> (r: String)
    ensures
        r@ == "http://localhost:"@ + crate::numbers::decimal(port as nat) + "/query"@,
{
    let base = serve::localhost_url(port);
    let mut v = text::chars_of(base.as_str());
    text::push_str(&mut v, "/query");
    text::string_from_chars(&v)
}

/// The health address of the local background server.
pub fn local_health_url(port: u16) -> (r: String)
    ensures
        r@ == "http://localhost:"@ + crate::numbers::decimal(port as nat) + "/health"@,
{
    let base = serve::localhost_url(port);
    let mut v = text::chars_of(base.as_str());
    text::push_str(&mut v, "/health");
    text::string_from_chars(&v)
}

/// The strings among the entries, in order (entries that are not strings
/// are skipped).
pub open spec fn present_strings(v: Seq<Option<String>>) -> Seq<Seq<char>>
    decreases v.len(),
{
    if v.len() == 0 {
        Seq::empty()
    } else {
        let rest = present_strings(v.drop_last());
        match v.last() {
            Some(s) => rest.push(s@),
            None => rest,
        }
    }
}

/// The variable names of a SPARQL JSON result head: the string entries of
/// its `vars` list, in order; none when the head has no list.
pub fn head_vars(vars: Option<Vec<Option<String>>>) -> (r: Vec<String>)
    ensures
        r@.map_values(|s: String| s@) == match vars {
            Some(v) => present_strings(v@),
            None => Seq::<Seq<char>>::empty(),
        },
{
    let mut out: Vec<String> = Vec::new();
    match vars {
        None => {
            assert(out@.map_values(|s: String| s@) =~= Seq::<Seq<char>>::empty());
            out
        },
        Some(v) => {
            let mut i: usize = 0;
            assert(v@.take(0) =~= Seq::<Option<String>>::empty());
            assert(out@.map_values(|s: String| s@) =~= Seq::<Seq<char>>::empty());
            while i < v.len()
                invariant
                    i <= v@.len(),
                    out@.map_values(|s: String| s@) == present_strings(v@.take(i as int)),
                decreases v.len() - i,
            {
                proof {
                    assert(v@.take(i + 1).drop_last() =~= v@.take(i as int));
                    assert(v@.take(i + 1).last() == v@[i as int]);
                }
                let ghost o = out@;
                match &v[i] {
                    Some(s) => {
                        out.push(s.clone());
                        assert(out@.map_values(|x: String| x@) =~= o.map_values(|x: String| x@).push(
                            s@,
                        ));
                    },
                    None => {},
                }
                i = i + 1;
            }
            assert(v@.take(v@.len() as int) =~= v@);
            out
        },
    }
}

} // verus!
