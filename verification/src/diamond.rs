//! Diamond dependency convergence: targets that a root repository reaches
//! along two or more distinct paths (directly and through an intermediate
//! package, or through two intermediate packages).
use vstd::prelude::*;
use crate::text;

verus! {

/// Options of a diamond analysis request.
pub struct DiamondOptions {
    pub from: String,
    pub to: Option<String>,
    pub format: String,
    pub endpoint: Option<String>,
}

/// A target reached along several paths.
#[derive(Debug)]
pub struct DiamondConvergenceJson {
    pub target: String,
    pub convergence_type: String,
    pub paths: Vec<Vec<String>>,
    pub total_calls_to_target: usize,
}

/// View of a path of package names.
pub open spec fn path_view(p: Vec<String>) -> Seq<Seq<char>> {
    p@.map_values(|s: String| s@)
}

/// View of a list of paths.
pub open spec fn paths_view(ps: Seq<Vec<String>>) -> Seq<Seq<Seq<char>>> {
    ps.map_values(|p: Vec<String>| path_view(p))
}

/// View of a convergence record: target, type, paths, total calls.
pub type DiamondView = (Seq<char>, Seq<char>, Seq<Seq<Seq<char>>>, nat);

/// View of a convergence record.
pub open spec fn diamond_view(d: DiamondConvergenceJson) -> DiamondView {
    (d.target@, d.convergence_type@, paths_view(d.paths@), d.total_calls_to_target as nat)
}

/// One path to a target with the number of calls it carries.
pub type Contrib = (Seq<char>, Seq<Seq<char>>, nat);

/// Direct edges `root ➔ pkg`.
pub open spec fn direct_contribs(root: Seq<char>, direct: Seq<(String, usize)>) -> Seq<Contrib> {
    direct.map_values(|e: (String, usize)| (e.0@, seq![root, e.0@], e.1 as nat))
}

/// Edges `root ➔ b ➔ target` through one intermediate package `b`.
pub open spec fn sub_contribs(root: Seq<char>, b: Seq<char>, sub: Seq<(String, usize)>) -> Seq<Contrib> {
    sub.map_values(|e: (String, usize)| (e.0@, seq![root, b, e.0@], e.1 as nat))
}

/// Two-hop edges through every intermediate package, in order.
pub open spec fn inter_contribs(root: Seq<char>, inter: Seq<(String, Vec<(String, usize)>)>) -> Seq<
    Contrib,
>
    decreases inter.len(),
{
    if inter.len() == 0 {
        Seq::empty()
    } else {
        inter_contribs(root, inter.drop_last()) + sub_contribs(
            root,
            inter.last().0@,
            inter.last().1@,
        )
    }
}

/// All paths: the direct ones, then the two-hop ones.
pub open spec fn contributions(
    root: Seq<char>,
    direct: Seq<(String, usize)>,
    inter: Seq<(String, Vec<(String, usize)>)>,
) -> Seq<Contrib> {
    direct_contribs(root, direct) + inter_contribs(root, inter)
}

/// The paths to `t`, in order.
pub open spec fn paths_to(cs: Seq<Contrib>, t: Seq<char>) -> Seq<Seq<Seq<char>>>
    decreases cs.len(),
{
    if cs.len() == 0 {
        Seq::empty()
    } else if cs.last().0 == t {
        paths_to(cs.drop_last(), t).push(cs.last().1)
    } else {
        paths_to(cs.drop_last(), t)
    }
}

/// The calls carried by all paths to `t`.
pub open spec fn calls_to(cs: Seq<Contrib>, t: Seq<char>) -> nat
    decreases cs.len(),
{
    if cs.len() == 0 {
        0
    } else if cs.last().0 == t {
        calls_to(cs.drop_last(), t) + cs.last().2
    } else {
        calls_to(cs.drop_last(), t)
    }
}

/// The targets, each once, in order of first appearance.
pub open spec fn targets(cs: Seq<Contrib>) -> Seq<Seq<char>>
    decreases cs.len(),
{
    if cs.len() == 0 {
        Seq::empty()
    } else if targets(cs.drop_last()).contains(cs.last().0) {
        targets(cs.drop_last())
    } else {
        targets(cs.drop_last()).push(cs.last().0)
    }
}

/// Type of convergence: with a direct path, or through branches only.
pub open spec fn convergence_type(paths: Seq<Seq<Seq<char>>>) -> Seq<char> {
    if exists|i: int| 0 <= i < paths.len() && paths[i].len() == 2 {
        "Direct + Transitive Shortcut"@
    } else {
        "Multi-Branch Transitive Convergence"@
    }
}

/// `t` converges: it is not the root (ignoring case) and two or more paths reach it.
pub open spec fn converges(cs: Seq<Contrib>, root: Seq<char>, t: Seq<char>) -> bool {
    text::lower(t) != text::lower(root) && paths_to(cs, t).len() >= 2
}

/// The convergence record of `t`.
pub open spec fn record_of(cs: Seq<Contrib>, t: Seq<char>) -> DiamondView {
    (t, convergence_type(paths_to(cs, t)), paths_to(cs, t), calls_to(cs, t))
}

/// Records of the converging targets, in order of first appearance.
pub open spec fn unsorted_diamonds(cs: Seq<Contrib>, root: Seq<char>) -> Seq<DiamondView> {
    targets(cs).filter(|t: Seq<char>| converges(cs, root, t)).map_values(
        |t: Seq<char>| record_of(cs, t),
    )
}

/// Number of leading records with at least `n` calls.
pub open spec fn insert_pos(s: Seq<DiamondView>, n: nat) -> nat
    decreases s.len(),
{
    if s.len() == 0 || s[0].3 < n {
        0
    } else {
        1 + insert_pos(s.drop_first(), n)
    }
}

/// `x` inserted after the leading records with at least as many calls.
pub open spec fn insert_desc(s: Seq<DiamondView>, x: DiamondView) -> Seq<DiamondView> {
    let k = insert_pos(s, x.3) as int;
    s.take(k).push(x) + s.skip(k)
}

/// Stable sort by calls, most calls first.
pub open spec fn sort_desc(s: Seq<DiamondView>) -> Seq<DiamondView>
    decreases s.len(),
{
    if s.len() == 0 {
        Seq::empty()
    } else {
        insert_desc(sort_desc(s.drop_last()), s.last())
    }
}

/// The diamonds of a root: converging targets with their paths and calls,
/// most calls first (ties keep the order of first appearance).
pub open spec fn diamonds_spec(
    root: Seq<char>,
    direct: Seq<(String, usize)>,
    inter: Seq<(String, Vec<(String, usize)>)>,
) -> Seq<DiamondView> {
    let cs = contributions(root, direct, inter);
    sort_desc(unsorted_diamonds(cs, root))
}

struct Contribution {
    target: String,
    path: Vec<String>,
    count: usize,
}

spec fn contrib_view(c: Contribution) -> Contrib {
    (c.target@, path_view(c.path), c.count as nat)
}

spec fn contribs_view(cs: Seq<Contribution>) -> Seq<Contrib> {
    cs.map_values(|c: Contribution| contrib_view(c))
}

fn two_path(a: &str, b: &String) -> (p: Vec<String>)
    ensures
        path_view(p) == seq![a@, b@],
{
    let mut p: Vec<String> = Vec::new();
    p.push(a.to_owned());
    p.push(b.clone());
    assert(path_view(p) =~= seq![a@, b@]);
    p
}

fn three_path(a: &str, b: &String, c: &String) -> (p: Vec<String>)
    ensures
        path_view(p) == seq![a@, b@, c@],
{
    let mut p: Vec<String> = Vec::new();
    p.push(a.to_owned());
    p.push(b.clone());
    p.push(c.clone());
    assert(path_view(p) =~= seq![a@, b@, c@]);
    p
}

fn build_contributions(
    root: &str,
    direct: &Vec<(String, usize)>,
    inter: &Vec<(String, Vec<(String, usize)>)>,
) -> (r: Vec<Contribution>)
    ensures
        contribs_view(r@) == contributions(root@, direct@, inter@),
{
    let mut cs: Vec<Contribution> = Vec::new();
    let mut i: usize = 0;
    while i < direct.len()
        invariant
            i <= direct.len(),
            contribs_view(cs@) == direct_contribs(root@, direct@.take(i as int)),
        decreases direct.len() - i,
    {
        let (pkg, cnt) = &direct[i];
        let ghost o = cs@;
        cs.push(Contribution { target: pkg.clone(), path: two_path(root, pkg), count: *cnt });
        assert(contribs_view(cs@) =~= contribs_view(o).push(contrib_view(cs@.last())));
        assert(direct@.take(i + 1) =~= direct@.take(i as int).push(direct@[i as int]));
        assert(direct_contribs(root@, direct@.take(i + 1)) =~= direct_contribs(
            root@,
            direct@.take(i as int),
        ).push((pkg@, seq![root@, pkg@], *cnt as nat)));
        i = i + 1;
    }
    assert(direct@.take(direct@.len() as int) =~= direct@);
    let ghost base = contribs_view(cs@);
    let mut j: usize = 0;
    assert(inter@.take(0) =~= Seq::<(String, Vec<(String, usize)>)>::empty());
    assert(base + inter_contribs(root@, inter@.take(0)) =~= base);
    while j < inter.len()
        invariant
            j <= inter.len(),
            base == direct_contribs(root@, direct@),
            contribs_view(cs@) == base + inter_contribs(root@, inter@.take(j as int)),
        decreases inter.len() - j,
    {
        let (b, sub) = &inter[j];
        let ghost before = contribs_view(cs@);
        let mut k: usize = 0;
        while k < sub.len()
            invariant
                k <= sub.len(),
                contribs_view(cs@) == before + sub_contribs(root@, b@, sub@.take(k as int)),
            decreases sub.len() - k,
        {
            let (t, cnt) = &sub[k];
            let ghost o = cs@;
            cs.push(Contribution { target: t.clone(), path: three_path(root, b, t), count: *cnt });
            assert(contribs_view(cs@) =~= contribs_view(o).push(contrib_view(cs@.last())));
            assert(sub@.take(k + 1) =~= sub@.take(k as int).push(sub@[k as int]));
            assert(sub_contribs(root@, b@, sub@.take(k + 1)) =~= sub_contribs(
                root@,
                b@,
                sub@.take(k as int),
            ).push((t@, seq![root@, b@, t@], *cnt as nat)));
            assert(before + sub_contribs(root@, b@, sub@.take(k + 1)) =~= (before + sub_contribs(
                root@,
                b@,
                sub@.take(k as int),
            )).push((t@, seq![root@, b@, t@], *cnt as nat)));
            k = k + 1;
        }
        assert(sub@.take(sub@.len() as int) =~= sub@);
        assert(inter@.take(j + 1).drop_last() =~= inter@.take(j as int));
        assert(inter@.take(j + 1).last() == inter@[j as int]);
        assert(base + inter_contribs(root@, inter@.take(j + 1)) =~= base + inter_contribs(
            root@,
            inter@.take(j as int),
        ) + sub_contribs(root@, b@, sub@));
        j = j + 1;
    }
    assert(inter@.take(inter@.len() as int) =~= inter@);
    cs
}

proof fn lemma_calls_prefix(cs: Seq<Contrib>, t: Seq<char>, i: int)
    requires
        0 <= i <= cs.len(),
    ensures
        calls_to(cs.take(i), t) <= calls_to(cs, t),
    decreases cs.len() - i,
{
    if i < cs.len() {
        lemma_calls_prefix(cs, t, i + 1);
        assert(cs.take(i + 1).drop_last() =~= cs.take(i));
    } else {
        assert(cs.take(i) =~= cs);
    }
}

fn paths_and_calls(cs: &Vec<Contribution>, t: &String) -> (r: (Vec<Vec<String>>, usize))
    requires
        calls_to(contribs_view(cs@), t@) <= usize::MAX,
    ensures
        paths_view(r.0@) == paths_to(contribs_view(cs@), t@),
        r.1 as nat == calls_to(contribs_view(cs@), t@),
{
    let ghost cv = contribs_view(cs@);
    let mut paths: Vec<Vec<String>> = Vec::new();
    let mut total: usize = 0;
    let mut i: usize = 0;
    let tv = text::chars_of(t.as_str());
    assert(cv.take(0) =~= Seq::<Contrib>::empty());
    while i < cs.len()
        invariant
            i <= cs.len(),
            cv == contribs_view(cs@),
            tv@ == t@,
            calls_to(cv, t@) <= usize::MAX,
            paths_view(paths@) == paths_to(cv.take(i as int), t@),
            total as nat == calls_to(cv.take(i as int), t@),
        decreases cs.len() - i,
    {
        let c = &cs[i];
        let cv_t = text::chars_of(c.target.as_str());
        proof {
            assert(cv.take(i + 1).drop_last() =~= cv.take(i as int));
            assert(cv.take(i + 1).last() == contrib_view(cs@[i as int]));
            lemma_calls_prefix(cv, t@, i + 1);
        }
        if text::chars_eq(&cv_t, &tv) {
            let ghost o = paths@;
            paths.push(text::clone_strings(&c.path, 0, c.path.len()));
            assert(c.path@.subrange(0, c.path@.len() as int) =~= c.path@);
            assert(paths_view(paths@) =~= paths_view(o).push(path_view(c.path)));
            total = total + c.count;
        }
        i = i + 1;
    }
    assert(cv.take(cs@.len() as int) =~= cv);
    (paths, total)
}

spec fn strings_view(v: Seq<String>) -> Seq<Seq<char>> {
    v.map_values(|x: String| x@)
}

fn distinct_targets(cs: &Vec<Contribution>) -> (r: Vec<String>)
    ensures
        strings_view(r@) == targets(contribs_view(cs@)),
{
    let ghost cv = contribs_view(cs@);
    let mut ts: Vec<String> = Vec::new();
    let mut i: usize = 0;
    assert(cv.take(0) =~= Seq::<Contrib>::empty());
    while i < cs.len()
        invariant
            i <= cs.len(),
            cv == contribs_view(cs@),
            strings_view(ts@) == targets(cv.take(i as int)),
        decreases cs.len() - i,
    {
        let t = text::chars_of(cs[i].target.as_str());
        let ghost prev = targets(cv.take(i as int));
        let mut found = false;
        let mut k: usize = 0;
        while k < ts.len()
            invariant
                k <= ts.len(),
                strings_view(ts@) == prev,
                found <==> exists|m: int| 0 <= m < k && prev[m] == t@,
            decreases ts.len() - k,
        {
            let tk = text::chars_of(ts[k].as_str());
            assert(prev[k as int] == ts@[k as int]@);
            if text::chars_eq(&tk, &t) {
                found = true;
            }
            k = k + 1;
        }
        proof {
            assert(cv.take(i + 1).drop_last() =~= cv.take(i as int));
            assert(cv.take(i + 1).last() == contrib_view(cs@[i as int]));
            assert(found <==> prev.contains(t@));
        }
        if !found {
            let ghost o = ts@;
            ts.push(cs[i].target.clone());
            assert(strings_view(ts@) =~= strings_view(o).push(t@));
        }
        i = i + 1;
    }
    assert(cv.take(cs@.len() as int) =~= cv);
    ts
}

fn convergence_type_exec(paths: &Vec<Vec<String>>) -> (r: String)
    ensures
        r@ == convergence_type(paths_view(paths@)),
{
    let mut i: usize = 0;
    while i < paths.len()
        invariant
            i <= paths.len(),
            forall|j: int| 0 <= j < i ==> paths_view(paths@)[j].len() != 2,
        decreases paths.len() - i,
    {
        if paths[i].len() == 2 {
            assert(paths_view(paths@)[i as int].len() == 2);
            return "Direct + Transitive Shortcut".to_owned();
        }
        i = i + 1;
    }
    "Multi-Branch Transitive Convergence".to_owned()
}

proof fn lemma_insert_pos_step(s: Seq<DiamondView>, n: nat, k: int)
    requires
        0 <= k < s.len(),
        s[k].3 >= n,
    ensures
        insert_pos(s.skip(k), n) == 1 + insert_pos(s.skip(k + 1), n),
{
    assert(s.skip(k).drop_first() =~= s.skip(k + 1));
}

fn insert_by_calls(out: &mut Vec<DiamondConvergenceJson>, x: DiamondConvergenceJson)
    ensures
        final(out)@.map_values(|d: DiamondConvergenceJson| diamond_view(d)) == insert_desc(
            old(out)@.map_values(|d: DiamondConvergenceJson| diamond_view(d)),
            diamond_view(x),
        ),
{
    let ghost s = out@.map_values(|d: DiamondConvergenceJson| diamond_view(d));
    let ghost n = x.total_calls_to_target as nat;
    let mut k: usize = 0;
    assert(s.skip(0) =~= s);
    while k < out.len() && out[k].total_calls_to_target >= x.total_calls_to_target
        invariant
            k <= out.len(),
            s == out@.map_values(|d: DiamondConvergenceJson| diamond_view(d)),
            n == x.total_calls_to_target as nat,
            insert_pos(s, n) == k + insert_pos(s.skip(k as int), n),
        decreases out.len() - k,
    {
        proof {
            lemma_insert_pos_step(s, n, k as int);
        }
        k = k + 1;
    }
    assert(insert_pos(s.skip(k as int), n) == 0) by {
        if k < out.len() {
            assert(s.skip(k as int)[0] == s[k as int]);
        }
    }
    let ghost xv = diamond_view(x);
    let ghost o = out@;
    out.insert(k, x);
    assert(out@.map_values(|d: DiamondConvergenceJson| diamond_view(d)) =~= s.take(k as int).push(
        xv,
    ) + s.skip(k as int));
}

/// Diamonds of a root repository from its direct call counts per package and,
/// for each intermediate package, that package's call counts per package
/// (each map given as a list of pairs): every target other than the root
/// (ignoring case) reached along two or more paths, with its paths and the
/// calls along them, most calls first.
pub fn find_diamonds(
    root_name: &str,
    direct: &Vec<(String, usize)>,
    intermediate: &Vec<(String, Vec<(String, usize)>)>,
) -> (r: Vec<DiamondConvergenceJson>)
    requires
        forall|t: Seq<char>|
            #[trigger] calls_to(contributions(root_name@, direct@, intermediate@), t)
                <= usize::MAX,
    ensures
        r@.map_values(|d: DiamondConvergenceJson| diamond_view(d)) == diamonds_spec(
            root_name@,
            direct@,
            intermediate@,
        ),
{
    let cs = build_contributions(root_name, direct, intermediate);
    let ghost cv = contribs_view(cs@);
    let ts = distinct_targets(&cs);
    let ghost tv = strings_view(ts@);
    let rl = text::to_lower(root_name);
    let rlv = text::chars_of(rl.as_str());
    let ghost conv = |t: Seq<char>| converges(cv, root_name@, t);
    let ghost rec = |t: Seq<char>| record_of(cv, t);
    let mut out: Vec<DiamondConvergenceJson> = Vec::new();
    let mut j: usize = 0;
    assert(tv.take(0).filter(conv) =~= Seq::<Seq<char>>::empty()) by {
        reveal_with_fuel(Seq::filter, 1);
    }
    assert(out@.map_values(|d: DiamondConvergenceJson| diamond_view(d)) =~= sort_desc(
        tv.take(0).filter(conv).map_values(rec),
    ));
    while j < ts.len()
        invariant
            j <= ts.len(),
            cv == contribs_view(cs@),
            cv == contributions(root_name@, direct@, intermediate@),
            tv == strings_view(ts@),
            tv == targets(cv),
            rlv@ == text::lower(root_name@),
            conv == (|t: Seq<char>| converges(cv, root_name@, t)),
            rec == (|t: Seq<char>| record_of(cv, t)),
            forall|t: Seq<char>| #[trigger] calls_to(cv, t) <= usize::MAX,
            out@.map_values(|d: DiamondConvergenceJson| diamond_view(d)) == sort_desc(
                tv.take(j as int).filter(conv).map_values(rec),
            ),
        decreases ts.len() - j,
    {
        let t = &ts[j];
        assert(tv[j as int] == t@);
        let tl = text::to_lower(t.as_str());
        let tlv = text::chars_of(tl.as_str());
        let (paths, calls) = paths_and_calls(&cs, t);
        let ghost prefix = tv.take(j as int).filter(conv).map_values(rec);
        proof {
            reveal_with_fuel(Seq::filter, 1);
            assert(tv.take(j + 1).drop_last() =~= tv.take(j as int));
            assert(tv.take(j + 1).last() == t@);
        }
        if !text::chars_eq(&tlv, &rlv) && paths.len() >= 2 {
            let ctype = convergence_type_exec(&paths);
            let d = DiamondConvergenceJson {
                target: t.clone(),
                convergence_type: ctype,
                paths,
                total_calls_to_target: calls,
            };
            assert(conv(t@));
            assert(diamond_view(d) == rec(t@));
            assert(tv.take(j + 1).filter(conv) == tv.take(j as int).filter(conv).push(t@));
            assert(tv.take(j + 1).filter(conv).map_values(rec) =~= prefix.push(rec(t@)));
            assert(prefix.push(rec(t@)).drop_last() =~= prefix);
            insert_by_calls(&mut out, d);
        } else {
            assert(!conv(t@));
            assert(tv.take(j + 1).filter(conv) == tv.take(j as int).filter(conv));
        }
        j = j + 1;
    }
    assert(tv.take(ts@.len() as int) =~= tv);
    out
}

/// The diamonds whose target contains `to` (both lower-cased).
pub open spec fn diamond_matches(d: DiamondView, to_lower: Seq<char>) -> bool {
    text::contains_seq(text::lower(d.0), to_lower)
}

/// Keep the diamonds whose target (lower-cased) contains the lower-cased filter.
pub fn retain_targets(diamonds: Vec<DiamondConvergenceJson>, to: &str) -> (r: Vec<
    DiamondConvergenceJson,
>)
    ensures
        r@.map_values(|d: DiamondConvergenceJson| diamond_view(d)) == diamonds@.map_values(
            |d: DiamondConvergenceJson| diamond_view(d),
        ).filter(|d: DiamondView| diamond_matches(d, text::lower(to@))),
{
    let tl = text::to_lower(to);
    let tlv = text::chars_of(tl.as_str());
    let ghost pred = |d: DiamondView| diamond_matches(d, text::lower(to@));
    let ghost all = diamonds@.map_values(|d: DiamondConvergenceJson| diamond_view(d));
    let mut src = diamonds;
    let mut rev: Vec<DiamondConvergenceJson> = Vec::new();
    while src.len() > 0
        invariant
            all == (src@ + rev@.reverse()).map_values(|d: DiamondConvergenceJson| diamond_view(d)),
        decreases src.len(),
    {
        let ghost os = src@;
        let d = src.pop().unwrap();
        let ghost o = rev@;
        rev.push(d);
        assert(src@ + rev@.reverse() =~= os + o.reverse()) by {
            assert(rev@.reverse() =~= seq![d] + o.reverse());
            assert(os =~= src@.push(d));
        }
    }
    assert(src@ + rev@.reverse() =~= rev@.reverse());
    let mut out: Vec<DiamondConvergenceJson> = Vec::new();
    let mut taken: usize = 0;
    let n = rev.len();
    assert(all.skip(0) =~= all);
    assert(all.take(0).filter(pred) =~= Seq::<DiamondView>::empty()) by {
        reveal_with_fuel(Seq::filter, 1);
    }
    while rev.len() > 0
        invariant
            taken + rev@.len() == n,
            n == all.len(),
            rev@.reverse().map_values(|d: DiamondConvergenceJson| diamond_view(d)) == all.skip(
                taken as int,
            ),
            tlv@ == text::lower(to@),
            pred == (|d: DiamondView| diamond_matches(d, text::lower(to@))),
            out@.map_values(|d: DiamondConvergenceJson| diamond_view(d)) == all.take(
                taken as int,
            ).filter(pred),
        decreases rev.len(),
    {
        let d = rev.pop().unwrap();
        let ghost dv = diamond_view(d);
        proof {
            assert((rev@.push(d)).reverse() =~= seq![d] + rev@.reverse());
            assert(all.skip(taken as int)[0] == dv);
            assert(all[taken as int] == dv);
            assert(all.skip(taken as int).drop_first() =~= all.skip(taken + 1));
            assert(rev@.reverse().map_values(|d: DiamondConvergenceJson| diamond_view(d)) =~= all.skip(
                taken + 1,
            ));
            reveal_with_fuel(Seq::filter, 1);
            assert(all.take(taken + 1).drop_last() =~= all.take(taken as int));
            assert(all.take(taken + 1).last() == dv);
        }
        let dl = text::to_lower(d.target.as_str());
        let dlv = text::chars_of(dl.as_str());
        if text::contains_chars(&dlv, &tlv) {
            let ghost o = out@;
            out.push(d);
            assert(out@.map_values(|d: DiamondConvergenceJson| diamond_view(d)) =~= o.map_values(
                |d: DiamondConvergenceJson| diamond_view(d),
            ).push(dv));
        }
        taken = taken + 1;
    }
    assert(all.take(n as int) =~= all);
    out
}


/// Records ordered by calls, most first.
pub open spec fn calls_desc(s: Seq<DiamondView>) -> bool {
    forall|i: int, j: int| 0 <= i < j < s.len() ==> (#[trigger] s[i]).3 >= (#[trigger] s[j]).3
}

proof fn lemma_insert_pos(s: Seq<DiamondView>, n: nat)
    ensures
        insert_pos(s, n) <= s.len(),
        forall|i: int| 0 <= i < insert_pos(s, n) ==> (#[trigger] s[i]).3 >= n,
        insert_pos(s, n) < s.len() ==> s[insert_pos(s, n) as int].3 < n,
    decreases s.len(),
{
    if s.len() > 0 && s[0].3 >= n {
        lemma_insert_pos(s.drop_first(), n);
        assert forall|i: int| 0 <= i < insert_pos(s, n) implies (#[trigger] s[i]).3 >= n by {
            if i > 0 {
                assert(s[i] == s.drop_first()[i - 1]);
            }
        }
    }
}

proof fn lemma_insert_desc(s: Seq<DiamondView>, x: DiamondView)
    requires
        calls_desc(s),
    ensures
        calls_desc(insert_desc(s, x)),
        insert_desc(s, x).to_multiset() == s.to_multiset().insert(x),
{
    let k = insert_pos(s, x.3) as int;
    lemma_insert_pos(s, x.3);
    let t = insert_desc(s, x);
    assert(t =~= s.insert(k, x));
    s.insert_ensures(k, x);
    assert forall|i: int, j: int| 0 <= i < j < t.len() implies (#[trigger] t[i]).3 >= (#[trigger] t[j]).3 by {
        if j < k {
        } else if j == k {
        } else if i == k {
            assert(t[j] == s[j - 1]);
            if j - 1 > k {
                assert(s[k].3 >= s[j - 1].3);
            }
        } else if i < k {
            assert(t[j] == s[j - 1]);
            assert(s[i].3 >= s[j - 1].3);
        } else {
            assert(t[i] == s[i - 1]);
            assert(t[j] == s[j - 1]);
            assert(s[i - 1].3 >= s[j - 1].3);
        }
    }
    crate::order::lemma_insert_multiset(s, k, x);
}

proof fn lemma_sort_desc(s: Seq<DiamondView>)
    ensures
        calls_desc(sort_desc(s)),
        sort_desc(s).to_multiset() == s.to_multiset(),
    decreases s.len(),
{
    if s.len() == 0 {
        assert(sort_desc(s) =~= s);
    } else {
        lemma_sort_desc(s.drop_last());
        lemma_insert_desc(sort_desc(s.drop_last()), s.last());
        s.drop_last().to_multiset_ensures();
        assert(s.drop_last().push(s.last()) =~= s);
    }
}

/// Every reported diamond is reached along two or more paths and is not the
/// root; the diamonds come with the most calls first, and they are exactly
/// the converging targets, each once.
pub proof fn law_diamonds_sorted_and_converging(
    root: Seq<char>,
    direct: Seq<(String, usize)>,
    inter: Seq<(String, Vec<(String, usize)>)>,
)
    ensures
        calls_desc(diamonds_spec(root, direct, inter)),
        diamonds_spec(root, direct, inter).to_multiset() == unsorted_diamonds(
            contributions(root, direct, inter),
            root,
        ).to_multiset(),
        forall|i: int|
            0 <= i < diamonds_spec(root, direct, inter).len() ==> (#[trigger] diamonds_spec(
                root,
                direct,
                inter,
            )[i]).2.len() >= 2,
{
    let cs = contributions(root, direct, inter);
    let u = unsorted_diamonds(cs, root);
    let d = diamonds_spec(root, direct, inter);
    lemma_sort_desc(u);
    let conv = |t: Seq<char>| converges(cs, root, t);
    let ts = targets(cs).filter(conv);
    assert forall|i: int| 0 <= i < d.len() implies (#[trigger] d[i]).2.len() >= 2 by {
        d.to_multiset_ensures();
        u.to_multiset_ensures();
        assert(d.contains(d[i]));
        assert(u.to_multiset().count(d[i]) > 0);
        assert(u.contains(d[i]));
        let k = choose|k: int| 0 <= k < u.len() && u[k] == d[i];
        assert(u[k] == record_of(cs, ts[k]));
        assert(conv(ts[k])) by {
            targets(cs).lemma_filter_pred(conv, k);
        }
    }
}


/// View of a list of package counts.
pub open spec fn counts_view(v: Seq<(String, usize)>) -> Seq<(Seq<char>, nat)> {
    v.map_values(|e: (String, usize)| (e.0@, e.1 as nat))
}

/// Counts after recording `count` for `pkg`: an earlier entry for the
/// package takes the new count in place, otherwise the package is added at
/// the end.
pub open spec fn upsert(m: Seq<(Seq<char>, nat)>, pkg: Seq<char>, count: nat) -> Seq<(Seq<char>, nat)> {
    let p = |e: (Seq<char>, nat)| e.0 == pkg;
    if text::any_where(m, p) {
        m.update(text::first_where(m, p), (pkg, count))
    } else {
        m.push((pkg, count))
    }
}

/// The package counts of the result rows `[package, count]`: rows without a
/// first cell are skipped, a count that is absent or not a number is 0, and
/// a package seen again keeps its place with the later count.
pub open spec fn pkg_counts_spec(rows: Seq<Vec<String>>) -> Seq<(Seq<char>, nat)>
    decreases rows.len(),
{
    if rows.len() == 0 {
        Seq::empty()
    } else {
        let m = pkg_counts_spec(rows.drop_last());
        let r = rows.last()@;
        if r.len() > 0 {
            let c = if r.len() > 1 {
                match crate::numbers::parse_decimal(r[1]@, usize::MAX as nat) {
                    Some(n) => n,
                    None => 0,
                }
            } else {
                0
            };
            upsert(m, r[0]@, c)
        } else {
            m
        }
    }
}

fn find_pkg(v: &Vec<(String, usize)>, name: &str) -> (r: Option<usize>)
    ensures
        match r {
            Some(k) => {
                let p = |e: (Seq<char>, nat)| e.0 == name@;
                &&& text::any_where(counts_view(v@), p)
                &&& k as int == text::first_where(counts_view(v@), p)
                &&& k < v@.len()
            },
            None => !text::any_where(counts_view(v@), |e: (Seq<char>, nat)| e.0 == name@),
        },
{
    let ghost m = counts_view(v@);
    let ghost p = |e: (Seq<char>, nat)| e.0 == name@;
    let mut k: usize = 0;
    while k < v.len()
        invariant
            k <= v@.len(),
            m == counts_view(v@),
            p == (|e: (Seq<char>, nat)| e.0 == name@),
            forall|j: int| 0 <= j < k ==> !p(#[trigger] m[j]),
        decreases v.len() - k,
    {
        if text::str_eq(v[k].0.as_str(), name) {
            proof {
                assert(p(m[k as int]));
                assert(text::is_first_where(m, p, k as int));
                text::lemma_first_where(m, p, k as int);
            }
            return Some(k);
        }
        assert(!p(m[k as int]));
        k = k + 1;
    }
    None
}

/// Reads package counts out of result rows.
pub fn pkg_counts_from_rows(rows: &Vec<Vec<String>>) -> (r: Vec<(String, usize)>)
    ensures
        counts_view(r@) == pkg_counts_spec(rows@),
{
    let mut out: Vec<(String, usize)> = Vec::new();
    let mut i: usize = 0;
    while i < rows.len()
        invariant
            i <= rows@.len(),
            counts_view(out@) == pkg_counts_spec(rows@.take(i as int)),
        decreases rows.len() - i,
    {
        proof {
            assert(rows@.take(i + 1).drop_last() =~= rows@.take(i as int));
            assert(rows@.take(i + 1).last() == rows@[i as int]);
        }
        let row = &rows[i];
        if row.len() > 0 {
            let c: usize = if row.len() > 1 {
                match crate::numbers::parse_usize(row[1].as_str()) {
                    Some(n) => n,
                    None => 0,
                }
            } else {
                0
            };
            let ghost m = counts_view(out@);
            let ghost pkg = row@[0]@;
            let ghost p = |e: (Seq<char>, nat)| e.0 == pkg;
            match find_pkg(&out, row[0].as_str()) {
                Some(k) => {
                    out.set(k, (row[0].clone(), c));
                    assert(counts_view(out@) =~= m.update(k as int, (pkg, c as nat)));
                },
                None => {
                    out.push((row[0].clone(), c));
                    assert(counts_view(out@) =~= m.push((pkg, c as nat)));
                },
            }
        }
        i = i + 1;
    }
    assert(rows@.take(rows@.len() as int) =~= rows@);
    out
}


/// Head of the query counting the calls of a graph per package.
pub const PACKAGE_COUNT_HEAD: &'static str = "\nPREFIX lx: <https://repolex.ai/ontology/repolex/lsp-extension/>\nSELECT ?targetPkg (COUNT(?e) as ?cnt)\nWHERE {\n  GRAPH <";

/// Tail of the query counting the calls of a graph per package.
pub const PACKAGE_COUNT_TAIL: &'static str = "> {\n    ?e lx:externalPackage ?targetPkg .\n  }\n}\nGROUP BY ?targetPkg\n";

/// The query counting the calls of the graph `lsp_iri` per external package.
pub fn package_count_query(lsp_iri: &str) -> (s: String)
    ensures
        s@ == PACKAGE_COUNT_HEAD@ + lsp_iri@ + PACKAGE_COUNT_TAIL@,
{
    let mut v = text::chars_of(PACKAGE_COUNT_HEAD);
    text::push_str(&mut v, lsp_iri);
    text::push_str(&mut v, PACKAGE_COUNT_TAIL);
    text::string_from_chars(&v)
}

/// The calls to a target add up over the paths: none without paths, and a
/// path adds its count when it reaches the target (directly or through an
/// intermediate package alike) and nothing otherwise; over two lists of
/// paths they add up.
pub proof fn law_calls_to_is_a_sum(cs: Seq<Contrib>, more: Seq<Contrib>, c: Contrib, t: Seq<char>)
    ensures
        calls_to(Seq::<Contrib>::empty(), t) == 0,
        calls_to(cs.push(c), t) == calls_to(cs, t) + (if c.0 == t { c.2 } else { 0 }),
        calls_to(cs.push(c), c.0) == calls_to(cs, c.0) + c.2,
        calls_to(cs + more, t) == calls_to(cs, t) + calls_to(more, t),
    decreases more.len(),
{
    assert(cs.push(c).drop_last() =~= cs);
    if more.len() > 0 {
        law_calls_to_is_a_sum(cs, more.drop_last(), c, t);
        assert((cs + more).drop_last() =~= cs + more.drop_last());
    } else {
        assert(cs + more =~= cs);
    }
}

/// Each reported diamond carries, as its total, the calls of all paths to
/// its target, and as its paths, every path to it.
pub proof fn law_diamond_totals(
    root: Seq<char>,
    direct: Seq<(String, usize)>,
    inter: Seq<(String, Vec<(String, usize)>)>,
)
    ensures
        forall|i: int|
            0 <= i < diamonds_spec(root, direct, inter).len() ==> {
                &&& (#[trigger] diamonds_spec(root, direct, inter)[i]).3 == calls_to(
                    contributions(root, direct, inter),
                    diamonds_spec(root, direct, inter)[i].0,
                )
                &&& diamonds_spec(root, direct, inter)[i].2 == paths_to(
                    contributions(root, direct, inter),
                    diamonds_spec(root, direct, inter)[i].0,
                )
            },
{
    let cs = contributions(root, direct, inter);
    let u = unsorted_diamonds(cs, root);
    let d = diamonds_spec(root, direct, inter);
    lemma_sort_desc(u);
    let conv = |t: Seq<char>| converges(cs, root, t);
    let ts = targets(cs).filter(conv);
    assert forall|i: int| 0 <= i < d.len() implies {
        &&& (#[trigger] d[i]).3 == calls_to(cs, d[i].0)
        &&& d[i].2 == paths_to(cs, d[i].0)
    } by {
        d.to_multiset_ensures();
        u.to_multiset_ensures();
        assert(d.contains(d[i]));
        assert(u.to_multiset().count(d[i]) > 0);
        assert(u.contains(d[i]));
        let k = choose|k: int| 0 <= k < u.len() && u[k] == d[i];
        assert(u[k] == record_of(cs, ts[k]));
    }
}

} // verus!
