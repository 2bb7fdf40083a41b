//! The api surface: every `api` string the extract layer can emit, sorted
//! and free of duplicates, derived from the same tables the matchers
//! dispatch on.
use vstd::prelude::*;
use vstd::string::*;
use crate::tables::{
    pairs_view, strs_view, structural_list, structural_strs, go_callee_table, go_callee_apis,
    python_callee_table, python_callee_apis, java_callee_table, java_callee_apis, java_ctor_table,
    java_ctor_apis, java_enum_class_table, java_enum_class_apis, js_callee_table, js_callee_apis,
    webcrypto_method_table, webcrypto_method_apis, c_callee_table, c_callee_apis, rust_callee_table,
    rust_callee_apis, csharp_callee_table, csharp_callee_apis, csharp_ctor_table, csharp_ctor_apis,
    go_alg_whitelist_list, go_alg_whitelist_strs,
};
use crate::text::owned;

verus! {

/// Lexicographic order on character sequences from position `i` on, the
/// order `String`'s `Ord` gives.
pub open spec fn lt_from(a: Seq<char>, b: Seq<char>, i: int) -> bool
    decreases a.len() - i,
{
    if i < 0 || i >= b.len() {
        false
    } else if i >= a.len() {
        true
    } else if a[i] < b[i] {
        true
    } else if a[i] == b[i] {
        lt_from(a, b, i + 1)
    } else {
        false
    }
}

/// `a` sorts strictly before `b`.
pub open spec fn seq_lt(a: Seq<char>, b: Seq<char>) -> bool {
    lt_from(a, b, 0)
}

proof fn lemma_lt_from_total(a: Seq<char>, b: Seq<char>, i: int)
    requires
        0 <= i,
        i <= a.len(),
        i <= b.len(),
    ensures
        lt_from(a, b, i) || lt_from(b, a, i) || (a.len() == b.len() && forall|k: int|
            i <= k < a.len() ==> a[k] == b[k]),
        !(lt_from(a, b, i) && lt_from(b, a, i)),
    decreases a.len() - i,
{
    if i < a.len() && i < b.len() && a[i] == b[i] {
        lemma_lt_from_total(a, b, i + 1);
        if a.len() == b.len() && forall|k: int| i + 1 <= k < a.len() ==> a[k] == b[k] {
            assert forall|k: int| i <= k < a.len() implies a[k] == b[k] by {
                if k > i {
                }
            }
        }
    } else if i < a.len() && i < b.len() {
        assert(a[i] != b[i]);
    }
}

/// Any two sequences are ordered one way, the other, or are equal, and
/// never both ways.
pub proof fn lemma_seq_lt_total(a: Seq<char>, b: Seq<char>)
    ensures
        seq_lt(a, b) || seq_lt(b, a) || a == b,
        !(seq_lt(a, b) && seq_lt(b, a)),
        !seq_lt(a, a),
{
    lemma_lt_from_total(a, b, 0);
    lemma_lt_from_total(a, a, 0);
    if a.len() == b.len() && forall|k: int| 0 <= k < a.len() ==> a[k] == b[k] {
        assert(a =~= b);
    }
}

proof fn lemma_lt_from_trans(a: Seq<char>, b: Seq<char>, c: Seq<char>, i: int)
    requires
        0 <= i,
        lt_from(a, b, i),
        lt_from(b, c, i),
    ensures
        lt_from(a, c, i),
    decreases a.len() - i,
{
    if i < a.len() && a[i] == b[i] && b[i] == c[i] {
        lemma_lt_from_trans(a, b, c, i + 1);
    }
}

/// The order is transitive.
pub proof fn lemma_seq_lt_trans(a: Seq<char>, b: Seq<char>, c: Seq<char>)
    requires
        seq_lt(a, b),
        seq_lt(b, c),
    ensures
        seq_lt(a, c),
{
    lemma_lt_from_trans(a, b, c, 0);
}

/// Does `a` sort strictly before `b`?
pub fn chars_lt(a: &Vec<char>, b: &Vec<char>) -> (r: bool)
    ensures
        r == seq_lt(a@, b@),
{
    let mut i: usize = 0;
    while i < a.len() && i < b.len()
        invariant
            i <= a@.len(),
            i <= b@.len(),
            seq_lt(a@, b@) == lt_from(a@, b@, i as int),
        decreases a.len() - i,
    {
        if a[i] < b[i] {
            return true;
        }
        if a[i] != b[i] {
            return false;
        }
        i = i + 1;
    }
    i < b.len()
}

/// The views of a list of strings.
pub open spec fn views(v: Seq<String>) -> Seq<Seq<char>> {
    v.map_values(|s: String| s@)
}

/// Strictly increasing, hence free of duplicates.
pub open spec fn sorted_strict(v: Seq<Seq<char>>) -> bool {
    forall|i: int, j: int| 0 <= i < j < v.len() ==> seq_lt(#[trigger] v[i], #[trigger] v[j])
}

/// Insert `s` into a strictly sorted list unless it is already there.
pub fn insert_sorted(out: &mut Vec<String>, s: String)
    requires
        sorted_strict(views(old(out)@)),
    ensures
        sorted_strict(views(final(out)@)),
        forall|x: Seq<char>| views(final(out)@).contains(x) <==> (views(old(out)@).contains(x) || x == s@),
{
    let ghost before = views(out@);
    let sc = crate::text::chars_of(s.as_str());
    let mut k: usize = 0;
    while k < out.len()
        invariant
            k <= out@.len(),
            views(out@) == before,
            sc@ == s@,
            forall|j: int| 0 <= j < k ==> seq_lt(#[trigger] before[j], s@),
        ensures
            k <= out@.len(),
            views(out@) == before,
            forall|j: int| 0 <= j < k ==> seq_lt(#[trigger] before[j], s@),
            k < out@.len() ==> !seq_lt(before[k as int], s@),
        decreases out.len() - k,
    {
        let cur = crate::text::chars_of(out[k].as_str());
        if !chars_lt(&cur, &sc) {
            break;
        }
        k = k + 1;
    }
    assert(forall|j: int| 0 <= j < k ==> seq_lt(#[trigger] before[j], s@));
    if k < out.len() {
        let cur = crate::text::chars_of(out[k].as_str());
        if crate::text::chars_eq(&cur, &sc) {
            assert(before[k as int] == s@);
            assert(views(out@).contains(s@));
            return;
        }
        proof {
            lemma_seq_lt_total(before[k as int], s@);
        }
        assert(seq_lt(s@, before[k as int]));
    }
    let ghost n = out@.len();
    out.insert(k, s);
    let ghost after = views(out@);
    assert(after =~= before.insert(k as int, s@));
    assert forall|i: int, j: int| 0 <= i < j < after.len() implies seq_lt(#[trigger] after[i], #[trigger] after[j]) by {
        if j < k {
        } else if j == k {
            assert(after[i] == before[i]);
        } else if i < k {
            assert(after[j] == before[j - 1]);
            assert(seq_lt(before[i], s@));
            assert(seq_lt(s@, before[k as int]));
            if j - 1 > k {
                lemma_seq_lt_trans(s@, before[k as int], before[j - 1]);
            }
            lemma_seq_lt_trans(before[i], s@, before[j - 1]);
        } else if i == k {
            assert(after[j] == before[j - 1]);
            if j - 1 > k {
                lemma_seq_lt_trans(s@, before[k as int], before[j - 1]);
            }
        } else {
            assert(after[i] == before[i - 1]);
            assert(after[j] == before[j - 1]);
        }
    }
    assert forall|x: Seq<char>| after.contains(x) <==> (before.contains(x) || x == s@) by {
        if after.contains(x) {
            let i = choose|i: int| 0 <= i < after.len() && after[i] == x;
            if i < k {
                assert(before[i] == x);
            } else if i > k {
                assert(before[i - 1] == x);
            }
        }
        if before.contains(x) {
            let i = choose|i: int| 0 <= i < before.len() && before[i] == x;
            if i < k {
                assert(after[i] == x);
            } else {
                assert(after[i + 1] == x);
            }
        }
        if x == s@ {
            assert(after[k as int] == x);
        }
    }
}

/// The second column of a table.
pub open spec fn apis_of(t: Seq<(Seq<char>, Seq<char>)>) -> Seq<Seq<char>> {
    t.map_values(|p: (Seq<char>, Seq<char>)| p.1)
}

/// Each name with a prefix in front.
pub open spec fn prefixed(prefix: Seq<char>, names: Seq<Seq<char>>) -> Seq<Seq<char>> {
    names.map_values(|n: Seq<char>| prefix + n)
}

/// Insert every string of `items` into a strictly sorted list.
fn insert_all(out: &mut Vec<String>, prefix: &str, items: &Vec<&'static str>)
    requires
        sorted_strict(views(old(out)@)),
    ensures
        sorted_strict(views(final(out)@)),
        forall|x: Seq<char>| views(final(out)@).contains(x) <==> (views(old(out)@).contains(x)
            || prefixed(prefix@, strs_view(items@)).contains(x)),
{
    let ghost start = views(out@);
    let mut i: usize = 0;
    while i < items.len()
        invariant
            i <= items@.len(),
            sorted_strict(views(out@)),
            forall|x: Seq<char>| views(out@).contains(x) <==> (start.contains(x)
                || prefixed(prefix@, strs_view(items@)).subrange(0, i as int).contains(x)),
        decreases items.len() - i,
    {
        let mut s = owned(prefix);
        s.append(items[i]);
        let ghost pre = prefixed(prefix@, strs_view(items@)).subrange(0, i as int);
        let ghost nxt = prefixed(prefix@, strs_view(items@)).subrange(0, i + 1);
        assert(nxt =~= pre.push(s@));
        let ghost sv = s@;
        let ghost mid = views(out@);
        assert(forall|x: Seq<char>| #[trigger] mid.contains(x) <==> (start.contains(x) || pre.contains(x)));
        insert_sorted(out, s);
        assert forall|x: Seq<char>| nxt.contains(x) <==> (pre.contains(x) || x == sv) by {
            if nxt.contains(x) {
                let j = choose|j: int| 0 <= j < nxt.len() && nxt[j] == x;
                if j < i {
                    assert(pre[j] == x);
                }
            }
            if pre.contains(x) {
                let j = choose|j: int| 0 <= j < pre.len() && pre[j] == x;
                assert(nxt[j] == x);
            }
            if x == sv {
                assert(nxt[i as int] == x);
            }
        }
        i = i + 1;
        assert forall|x: Seq<char>| views(out@).contains(x) <==> (start.contains(x)
            || prefixed(prefix@, strs_view(items@)).subrange(0, i as int).contains(x)) by {
            assert(prefixed(prefix@, strs_view(items@)).subrange(0, i as int) == nxt);
            assert(views(out@).contains(x) <==> (mid.contains(x) || x == sv));
            assert(mid.contains(x) <==> (start.contains(x) || pre.contains(x)));
            assert(nxt.contains(x) <==> (pre.contains(x) || x == sv));
        }
    }
    assert(prefixed(prefix@, strs_view(items@)).subrange(0, items@.len() as int) =~= prefixed(
        prefix@,
        strs_view(items@),
    ));
}

/// The api column of a callee table, as a list.
fn second_column(t: &Vec<(&'static str, &'static str)>) -> (r: Vec<&'static str>)
    ensures
        strs_view(r@) == apis_of(pairs_view(t@)),
{
    let mut r: Vec<&'static str> = Vec::new();
    let mut i: usize = 0;
    while i < t.len()
        invariant
            i <= t@.len(),
            strs_view(r@) == apis_of(pairs_view(t@)).subrange(0, i as int),
        decreases t.len() - i,
    {
        let ghost prev = r@;
        r.push(t[i].1);
        assert(strs_view(r@) =~= strs_view(prev).push(t@[i as int].1@));
        assert(apis_of(pairs_view(t@)).subrange(0, i + 1) =~= apis_of(pairs_view(t@)).subrange(0, i as int).push(t@[i as int].1@));
        i = i + 1;
        assert(strs_view(r@) =~= apis_of(pairs_view(t@)).subrange(0, i as int));
    }
    assert(apis_of(pairs_view(t@)).subrange(0, t@.len() as int) =~= apis_of(pairs_view(t@)));
    r
}

/// Every api string the extract layer can emit, with repeats.
pub open spec fn surface_pool() -> Seq<Seq<char>> {
    structural_list() + apis_of(go_callee_table()) + apis_of(python_callee_table()) + apis_of(
        java_callee_table(),
    ) + apis_of(java_ctor_table()) + apis_of(java_enum_class_table()) + apis_of(js_callee_table())
        + apis_of(webcrypto_method_table()) + apis_of(c_callee_table()) + apis_of(rust_callee_table())
        + apis_of(csharp_callee_table()) + apis_of(csharp_ctor_table()) + prefixed(
        "go.alg-switch."@,
        go_alg_whitelist_list(),
    ) + prefixed("go.alg-register."@, go_alg_whitelist_list())
}

/// Appending to a pool, seen as membership.
proof fn lemma_concat_contains(a: Seq<Seq<char>>, b: Seq<Seq<char>>, x: Seq<char>)
    ensures
        (a + b).contains(x) <==> (a.contains(x) || b.contains(x)),
{
    if (a + b).contains(x) {
        let i = choose|i: int| 0 <= i < (a + b).len() && (a + b)[i] == x;
        if i >= a.len() {
            assert(b[i - a.len()] == x);
        }
    }
    if b.contains(x) {
        let i = choose|i: int| 0 <= i < b.len() && b[i] == x;
        assert((a + b)[a.len() + i] == x);
    }
    if a.contains(x) {
        let i = choose|i: int| 0 <= i < a.len() && a[i] == x;
        assert((a + b)[i] == x);
    }
}

proof fn lemma_no_prefix(t: Seq<Seq<char>>)
    ensures
        prefixed(""@, t) == t,
{
    assert(""@ =~= Seq::<char>::empty()) by {
        reveal_strlit("");
    }
    assert forall|i: int| 0 <= i < t.len() implies prefixed(""@, t)[i] == t[i] by {
        assert(Seq::<char>::empty() + t[i] =~= t[i]);
    }
    assert(prefixed(""@, t) =~= t);
}

/// Add a table's api column to the sorted list.
fn add_table(out: &mut Vec<String>, t: &Vec<(&'static str, &'static str)>)
    requires
        sorted_strict(views(old(out)@)),
    ensures
        sorted_strict(views(final(out)@)),
        forall|x: Seq<char>| views(final(out)@).contains(x) <==> (views(old(out)@).contains(x)
            || apis_of(pairs_view(t@)).contains(x)),
{
    let col = second_column(t);
    proof {
        lemma_no_prefix(strs_view(col@));
    }
    insert_all(out, "", &col);
}

/// Every `api` string the extract layer can emit, sorted and without
/// repeats: the structural apis, the api column of every callee table, and
/// the two Go JOSE families over their whitelisted algorithm names.
pub fn api_surface() -> (r: Vec<String>)
    ensures
        sorted_strict(views(r@)),
        forall|x: Seq<char>| views(r@).contains(x) <==> surface_pool().contains(x),
{
    let mut out: Vec<String> = Vec::new();
    assert(views(out@) =~= Seq::<Seq<char>>::empty());
    let structural = structural_strs();
    proof {
        lemma_no_prefix(strs_view(structural@));
    }
    insert_all(&mut out, "", &structural);
    add_table(&mut out, &go_callee_apis());
    add_table(&mut out, &python_callee_apis());
    add_table(&mut out, &java_callee_apis());
    add_table(&mut out, &java_ctor_apis());
    add_table(&mut out, &java_enum_class_apis());
    add_table(&mut out, &js_callee_apis());
    add_table(&mut out, &webcrypto_method_apis());
    add_table(&mut out, &c_callee_apis());
    add_table(&mut out, &rust_callee_apis());
    add_table(&mut out, &csharp_callee_apis());
    add_table(&mut out, &csharp_ctor_apis());
    let whitelist = go_alg_whitelist_strs();
    insert_all(&mut out, "go.alg-switch.", &whitelist);
    insert_all(&mut out, "go.alg-register.", &whitelist);
    assert forall|x: Seq<char>| views(out@).contains(x) <==> surface_pool().contains(x) by {
        let p0 = structural_list();
        let p1 = p0 + apis_of(go_callee_table());
        let p2 = p1 + apis_of(python_callee_table());
        let p3 = p2 + apis_of(java_callee_table());
        let p4 = p3 + apis_of(java_ctor_table());
        let p5 = p4 + apis_of(java_enum_class_table());
        let p6 = p5 + apis_of(js_callee_table());
        let p7 = p6 + apis_of(webcrypto_method_table());
        let p8 = p7 + apis_of(c_callee_table());
        let p9 = p8 + apis_of(rust_callee_table());
        let p10 = p9 + apis_of(csharp_callee_table());
        let p11 = p10 + apis_of(csharp_ctor_table());
        let p12 = p11 + prefixed("go.alg-switch."@, go_alg_whitelist_list());
        lemma_concat_contains(p0, apis_of(go_callee_table()), x);
        lemma_concat_contains(p1, apis_of(python_callee_table()), x);
        lemma_concat_contains(p2, apis_of(java_callee_table()), x);
        lemma_concat_contains(p3, apis_of(java_ctor_table()), x);
        lemma_concat_contains(p4, apis_of(java_enum_class_table()), x);
        lemma_concat_contains(p5, apis_of(js_callee_table()), x);
        lemma_concat_contains(p6, apis_of(webcrypto_method_table()), x);
        lemma_concat_contains(p7, apis_of(c_callee_table()), x);
        lemma_concat_contains(p8, apis_of(rust_callee_table()), x);
        lemma_concat_contains(p9, apis_of(csharp_callee_table()), x);
        lemma_concat_contains(p10, apis_of(csharp_ctor_table()), x);
        lemma_concat_contains(p11, prefixed("go.alg-switch."@, go_alg_whitelist_list()), x);
        lemma_concat_contains(p12, prefixed("go.alg-register."@, go_alg_whitelist_list()), x);
    }
    out
}

/// Every api a bare Java enum-constant reference emits is on the api
/// surface.
pub proof fn lemma_java_enum_apis_on_surface(x: Seq<char>)
    requires
        apis_of(java_enum_class_table()).contains(x),
    ensures
        surface_pool().contains(x),
{
    let p0 = structural_list();
    let p1 = p0 + apis_of(go_callee_table());
    let p2 = p1 + apis_of(python_callee_table());
    let p3 = p2 + apis_of(java_callee_table());
    let p4 = p3 + apis_of(java_ctor_table());
    let p5 = p4 + apis_of(java_enum_class_table());
    let p6 = p5 + apis_of(js_callee_table());
    let p7 = p6 + apis_of(webcrypto_method_table());
    let p8 = p7 + apis_of(c_callee_table());
    let p9 = p8 + apis_of(rust_callee_table());
    let p10 = p9 + apis_of(csharp_callee_table());
    let p11 = p10 + apis_of(csharp_ctor_table());
    let p12 = p11 + prefixed("go.alg-switch."@, go_alg_whitelist_list());
    lemma_concat_contains(p4, apis_of(java_enum_class_table()), x);
    lemma_concat_contains(p5, apis_of(js_callee_table()), x);
    lemma_concat_contains(p6, apis_of(webcrypto_method_table()), x);
    lemma_concat_contains(p7, apis_of(c_callee_table()), x);
    lemma_concat_contains(p8, apis_of(rust_callee_table()), x);
    lemma_concat_contains(p9, apis_of(csharp_callee_table()), x);
    lemma_concat_contains(p10, apis_of(csharp_ctor_table()), x);
    lemma_concat_contains(p11, prefixed("go.alg-switch."@, go_alg_whitelist_list()), x);
    lemma_concat_contains(p12, prefixed("go.alg-register."@, go_alg_whitelist_list()), x);
}

/// The apis reached through a bare Java enum-constant reference, in table
/// order.
pub fn java_enum_api_surface() -> (r: Vec<String>)
    ensures
        views(r@) == apis_of(java_enum_class_table()),
{
    let t = java_enum_class_apis();
    let mut r: Vec<String> = Vec::new();
    let mut i: usize = 0;
    while i < t.len()
        invariant
            i <= t@.len(),
            pairs_view(t@) == java_enum_class_table(),
            views(r@) == apis_of(pairs_view(t@)).subrange(0, i as int),
        decreases t.len() - i,
    {
        let ghost prev = r@;
        let o = owned(t[i].1);
        r.push(o);
        assert(views(r@) =~= views(prev).push(t@[i as int].1@));
        assert(apis_of(pairs_view(t@)).subrange(0, i + 1) =~= apis_of(pairs_view(t@)).subrange(0, i as int).push(t@[i as int].1@));
        i = i + 1;
        assert(views(r@) =~= apis_of(pairs_view(t@)).subrange(0, i as int));
    }
    assert(apis_of(pairs_view(t@)).subrange(0, t@.len() as int) =~= apis_of(pairs_view(t@)));
    r
}

} // verus!
