//! Rust callee text: turbofish stripping, path normalisation and the
//! turbofish capture.
use vstd::prelude::*;
use crate::callee::{spec_lookup, lookup_chars, lit, match_view, str_arg};
use crate::extract::{ArgMap, ArgVal, ArgValue};
use crate::pattern::{first_occ, replace_all, split_str, find_first, replace_all_chars, split_on_str, lemma_first_occ_bounds};
use crate::split::{split_chars, split_on_chars, lemma_split_chars_nonempty};
use crate::tables::{rust_callee_table, rust_callee_apis};
use crate::text::{chars_of, slice_chars, string_from_chars, trim_chars, trim_ws, one_char, occurs_at};

verus! {

/// Text outside `<...>` groups, with the nesting depth reached; a `>` at
/// depth zero is ordinary text.
pub open spec fn angle_strip(s: Seq<char>) -> (Seq<char>, nat)
    decreases s.len(),
{
    if s.len() == 0 {
        (Seq::empty(), 0)
    } else {
        let (o, d) = angle_strip(s.drop_last());
        let c = s.last();
        if c == '<' {
            (o, d + 1)
        } else if c == '>' && d > 0 {
            (o, (d - 1) as nat)
        } else if d == 0 {
            (o.push(c), d)
        } else {
            (o, d)
        }
    }
}

pub open spec fn quad_colon() -> Seq<char> {
    seq![':', ':', ':', ':']
}

pub open spec fn double_colon() -> Seq<char> {
    seq![':', ':']
}

pub proof fn lemma_replace_len(s: Seq<char>, pat: Seq<char>, rep: Seq<char>)
    requires
        pat.len() > rep.len(),
    ensures
        replace_all(s, pat, rep).len() <= s.len(),
        first_occ(s, pat) >= 0 ==> replace_all(s, pat, rep).len() < s.len(),
    decreases s.len(),
{
    lemma_first_occ_bounds(s, pat, 0);
    let i = first_occ(s, pat);
    if i >= 0 {
        lemma_replace_len(s.subrange(i + pat.len(), s.len() as int), pat, rep);
    }
}

/// Repeatedly replace `::::` with `::` until none is left.
pub open spec fn collapse_colons(s: Seq<char>) -> Seq<char>
    decreases s.len(),
{
    if first_occ(s, quad_colon()) >= 0 {
        proof {
            lemma_replace_len(s, quad_colon(), double_colon());
        }
        collapse_colons(replace_all(s, quad_colon(), double_colon()))
    } else {
        s
    }
}

pub open spec fn non_empty_pred() -> spec_fn(Seq<char>) -> bool {
    |x: Seq<char>| x.len() > 0
}

/// The `Type::method` form `normalize_rust_callee` produces: turbofish
/// groups dropped, `::::` runs collapsed, and the last two non-empty
/// `::`-separated segments kept.
pub open spec fn normalize_rust_spec(c: Seq<char>) -> Seq<char> {
    let stripped = collapse_colons(angle_strip(c).0);
    let segs = split_str(stripped, double_colon()).filter(non_empty_pred());
    if segs.len() == 0 {
        stripped
    } else if segs.len() == 1 {
        segs[0]
    } else {
        segs[segs.len() - 2] + double_colon() + segs[segs.len() - 1]
    }
}

fn colons(n: usize) -> (r: Vec<char>)
    ensures
        r@.len() == n,
        forall|i: int| 0 <= i < n ==> r@[i] == ':',
{
    let mut r: Vec<char> = Vec::new();
    while r.len() < n
        invariant
            r@.len() <= n,
            forall|i: int| 0 <= i < r@.len() ==> r@[i] == ':',
        decreases n - r@.len(),
    {
        r.push(':');
    }
    r
}

/// Strip Rust callee text down to the bare `Type::method` form by removing
/// leading module path segments and turbofish generic parameters.
pub fn normalize_rust_callee(callee: &str) -> (r: String)
    ensures
        r@ == normalize_rust_spec(callee@),
{
    let cv = chars_of(callee);
    // Drop everything inside <...> groups.
    let mut stripped: Vec<char> = Vec::new();
    let mut depth: usize = 0;
    let mut i: usize = 0;
    assert(cv@.subrange(0, 0) =~= Seq::<char>::empty());
    while i < cv.len()
        invariant
            i <= cv@.len(),
            depth <= i,
            angle_strip(cv@.subrange(0, i as int)) == (stripped@, depth as nat),
        decreases cv.len() - i,
    {
        let c = cv[i];
        let ghost cur = cv@.subrange(0, i + 1);
        assert(cur.drop_last() =~= cv@.subrange(0, i as int));
        if c == '<' {
            depth = depth + 1;
        } else if c == '>' && depth > 0 {
            depth = depth - 1;
        } else if depth == 0 {
            stripped.push(c);
        }
        i = i + 1;
    }
    assert(cv@.subrange(0, cv@.len() as int) =~= cv@);
    // Collapse any `::::` left over from `Foo::<...>::method`.
    let quad = colons(4);
    let two = colons(2);
    assert(quad@ =~= quad_colon());
    assert(two@ =~= double_colon());
    let mut cur = stripped;
    loop
        invariant_except_break
            quad@ == quad_colon(),
            two@ == double_colon(),
            collapse_colons(cur@) == collapse_colons(angle_strip(callee@).0),
        ensures
            cur@ == collapse_colons(angle_strip(callee@).0),
        decreases cur@.len(),
    {
        match find_first(&cur, &quad) {
            None => break,
            Some(_) => {
                proof {
                    lemma_replace_len(cur@, quad_colon(), double_colon());
                }
                cur = replace_all_chars(&cur, &quad, &two);
            },
        }
    }
    // Keep only the last two non-empty `::`-separated segments.
    let parts = split_on_str(&cur, &two);
    let ghost all = split_str(cur@, double_colon());
    let mut segs: Vec<Vec<char>> = Vec::new();
    let mut j: usize = 0;
    while j < parts.len()
        invariant
            j <= parts@.len(),
            parts@.len() == all.len(),
            forall|k: int| 0 <= k < parts@.len() ==> #[trigger] parts@[k]@ == all[k],
            segs@.len() == all.subrange(0, j as int).filter(non_empty_pred()).len(),
            forall|k: int|
                0 <= k < segs@.len() ==> #[trigger] segs@[k]@ == all.subrange(0, j as int).filter(
                    non_empty_pred(),
                )[k],
        decreases parts.len() - j,
    {
        let ghost pre = all.subrange(0, j as int);
        let ghost nxt = all.subrange(0, j + 1);
        assert(nxt.drop_last() =~= pre);
        assert(nxt.last() == parts@[j as int]@);
        assert(nxt.filter(non_empty_pred()) == (if nxt.last().len() > 0 {
            pre.filter(non_empty_pred()).push(nxt.last())
        } else {
            pre.filter(non_empty_pred())
        })) by {
            reveal_with_fuel(Seq::filter, 1);
        }
        assert(nxt.filter(non_empty_pred()) == (if nxt.last().len() > 0 {
            pre.filter(non_empty_pred()).push(nxt.last())
        } else {
            pre.filter(non_empty_pred())
        }));
        if parts[j].len() > 0 {
            segs.push(slice_chars(&parts[j], 0, parts[j].len()));
            assert(parts@[j as int]@.subrange(0, parts@[j as int]@.len() as int) =~= parts@[j as int]@);
        }
        j = j + 1;
    }
    assert(all.subrange(0, all.len() as int) =~= all);
    let n = segs.len();
    if n == 0 {
        string_from_chars(&cur)
    } else if n == 1 {
        string_from_chars(&segs[0])
    } else {
        let mut out = string_from_chars(&segs[n - 2]);
        let tail = string_from_chars(&segs[n - 1]);
        let sep = string_from_chars(&two);
        out.append(sep.as_str());
        out.append(tail.as_str());
        out
    }
}

/// Scan from `k` with depth `d` for the `>` that closes the group opened at
/// the first `<`.
pub open spec fn turbo_end(s: Seq<char>, k: int, d: int) -> Option<int>
    decreases s.len() - k,
{
    if k < 0 || k >= s.len() {
        None
    } else if s[k] == '<' {
        turbo_end(s, k + 1, d + 1)
    } else if s[k] == '>' {
        if d - 1 == 0 {
            Some(k)
        } else {
            turbo_end(s, k + 1, d - 1)
        }
    } else {
        turbo_end(s, k + 1, d)
    }
}

/// Index of the first `<`, or -1.
pub open spec fn first_lt(s: Seq<char>) -> int {
    crate::pattern::first_occ(s, seq!['<'])
}

/// The trimmed contents of the first outermost `<...>` group, if non-empty.
pub open spec fn turbofish_spec(c: Seq<char>) -> Option<Seq<char>> {
    let lt = first_lt(c);
    if lt < 0 {
        None
    } else {
        match turbo_end(c, lt, 0) {
            None => None,
            Some(end) => {
                let inner = trim_ws(c.subrange(lt + 1, end));
                if inner.len() == 0 {
                    None
                } else {
                    Some(inner)
                }
            },
        }
    }
}

proof fn lemma_turbo_end_bounds(s: Seq<char>, k: int, d: int)
    ensures
        turbo_end(s, k, d) matches Some(e) ==> k <= e < s.len() && s[e] == '>',
    decreases s.len() - k,
{
    if 0 <= k < s.len() {
        if s[k] == '<' {
            lemma_turbo_end_bounds(s, k + 1, d + 1);
        } else if s[k] == '>' {
            lemma_turbo_end_bounds(s, k + 1, d - 1);
        } else {
            lemma_turbo_end_bounds(s, k + 1, d);
        }
    }
}

/// Pull the contents of the first `<...>` turbofish group out of Rust
/// callee text, trimmed of whitespace.
pub fn extract_turbofish_inner(callee: &str) -> (r: Option<String>)
    ensures
        match r {
            Some(s) => turbofish_spec(callee@) == Some(s@),
            None => turbofish_spec(callee@) is None,
        },
{
    let cv = chars_of(callee);
    let lt = match find_first(&cv, &one_char('<')) {
        Some(i) => i,
        None => return None,
    };
    assert(cv@.subrange(lt as int, lt + 1)[0] == cv@[lt as int]);
    assert(cv@[lt as int] == '<');
    let mut depth: usize = 0;
    let mut k = lt;
    let mut end: Option<usize> = None;
    loop
        invariant_except_break
            lt <= k <= cv@.len(),
            lt < cv@.len(),
            cv@[lt as int] == '<',
            depth <= k - lt,
            k == lt ==> depth == 0,
            k > lt ==> depth >= 1,
            end is None,
            turbo_end(cv@, lt as int, 0) == turbo_end(cv@, k as int, depth as int),
        ensures
            end matches Some(e) ==> turbo_end(cv@, lt as int, 0) == Some(e as int),
            end is None ==> turbo_end(cv@, lt as int, 0) is None,
        decreases cv.len() - k,
    {
        if k >= cv.len() {
            break;
        }
        let c = cv[k];
        if c == '<' {
            depth = depth + 1;
        } else if c == '>' {
            if depth == 1 {
                end = Some(k);
                break;
            }
            depth = depth - 1;
        }
        k = k + 1;
    }
    let end = match end {
        Some(e) => e,
        None => return None,
    };
    proof { lemma_turbo_end_bounds(cv@, lt as int, 0); }
    let inner_raw = slice_chars(&cv, lt + 1, end);
    let inner = trim_chars(&inner_raw);
    if inner.len() == 0 {
        None
    } else {
        Some(string_from_chars(&inner))
    }
}

/// What `match_rust_callee` yields for callee text `c`.
pub open spec fn rust_callee_spec(c: Seq<char>) -> Option<(Seq<char>, Seq<(Seq<char>, ArgVal)>)> {
    let n = normalize_rust_spec(c);
    let api = match spec_lookup(rust_callee_table(), n) {
        Some(a) => Some(a),
        None => spec_lookup(rust_callee_table(), split_str(n, double_colon()).last()),
    };
    match api {
        None => None,
        Some(a) => Some(
            (
                a,
                match turbofish_spec(c) {
                    Some(t) => seq![("turbofish"@, str_arg(t))],
                    None => Seq::empty(),
                },
            ),
        ),
    }
}

/// Rust callee text → api name, trying the normalised `Type::method` form
/// first and then its last segment alone; the turbofish contents, if any,
/// become the `turbofish` capture.
pub fn match_rust_callee(callee: &str) -> (r: Option<(String, ArgMap)>)
    ensures
        match_view(r) == rust_callee_spec(callee@),
{
    let normalized = normalize_rust_callee(callee);
    let nv = chars_of(normalized.as_str());
    let table = rust_callee_apis();
    let api = match lookup_chars(&table, &nv) {
        Some(a) => a,
        None => {
            let two = colons(2);
            assert(two@ =~= double_colon());
            let parts = split_on_str(&nv, &two);
            let ghost ps = split_str(nv@, double_colon());
            proof { lemma_split_str_nonempty(nv@, double_colon()); }
            let last = parts.len() - 1;
            match lookup_chars(&table, &parts[last]) {
                Some(a) => a,
                None => return None,
            }
        },
    };
    let mut args = ArgMap::new();
    if let Some(turbo) = extract_turbofish_inner(callee) {
        args.insert(lit("turbofish"), ArgValue::Str(turbo));
        assert(args@ =~= seq![("turbofish"@, str_arg(turbofish_spec(callee@)->0))]);
    }
    Some((lit(api), args))
}

pub proof fn lemma_split_str_nonempty(s: Seq<char>, pat: Seq<char>)
    requires
        pat.len() > 0,
    ensures
        split_str(s, pat).len() >= 1,
    decreases s.len(),
{
    let i = first_occ(s, pat);
    if i >= 0 {
        lemma_first_occ_bounds(s, pat, 0);
        lemma_split_str_nonempty(s.subrange(i + pat.len(), s.len() as int), pat);
    }
}

} // verus!
