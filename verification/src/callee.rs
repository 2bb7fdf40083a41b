//! Callee text → logical api name, per language.
//!
//! Each `match_*_callee` resolves the source text of a call's callee through
//! the tables in [`crate::tables`] and records the captures the classify layer
//! reads. The specification functions here state the exact result.
use vstd::prelude::*;
use crate::extract::{ArgMap, ArgVal, ArgValue, insert_entry};
use crate::split::{split_chars, split_on_chars, first_segment};
use crate::tables::{
    pairs_view, go_callee_table, go_callee_apis, python_callee_table, python_callee_apis,
    java_callee_table, java_callee_apis, java_ctor_table, java_ctor_apis, csharp_callee_table,
    csharp_callee_apis, csharp_ctor_table, csharp_ctor_apis, c_callee_table, c_callee_apis,
    webcrypto_method_table, webcrypto_method_apis, js_callee_table, js_callee_apis,
};
use crate::text::{
    chars_of, chars_starts_with, slice_chars, string_from_chars, str_eq, str_starts_with,
    str_ends_with, one_char, trim_chars, trim_end_chars, is_prefix, is_suffix, trim_ws, trim_end_ws,
};

verus! {

/// The api the first table row whose key is `key` names.
pub open spec fn spec_lookup(t: Seq<(Seq<char>, Seq<char>)>, key: Seq<char>) -> Option<Seq<char>>
    decreases t.len(),
{
    if t.len() == 0 {
        None
    } else if t[0].0 == key {
        Some(t[0].1)
    } else {
        spec_lookup(t.drop_first(), key)
    }
}

/// Exact-match lookup in one of the callee → api tables.
pub fn lookup(table: &Vec<(&'static str, &'static str)>, key: &str) -> (r: Option<&'static str>)
    ensures
        match r {
            Some(api) => spec_lookup(pairs_view(table@), key@) == Some(api@),
            None => spec_lookup(pairs_view(table@), key@) is None,
        },
{
    let ghost full = pairs_view(table@);
    let mut i: usize = 0;
    assert(full.subrange(0, full.len() as int) =~= full);
    while i < table.len()
        invariant
            full == pairs_view(table@),
            i <= table@.len(),
            spec_lookup(full, key@) == spec_lookup(full.subrange(i as int, full.len() as int), key@),
        decreases table.len() - i,
    {
        let ghost rest = full.subrange(i as int, full.len() as int);
        assert(rest.drop_first() =~= full.subrange(i + 1, full.len() as int));
        assert(rest[0] == (table@[i as int].0@, table@[i as int].1@));
        let (k, api) = table[i];
        if str_eq(k, key) {
            return Some(api);
        }
        i = i + 1;
    }
    None
}

/// The same lookup on a key held as characters.
pub fn lookup_chars(table: &Vec<(&'static str, &'static str)>, key: &Vec<char>) -> (r: Option<&'static str>)
    ensures
        match r {
            Some(api) => spec_lookup(pairs_view(table@), key@) == Some(api@),
            None => spec_lookup(pairs_view(table@), key@) is None,
        },
{
    let s = string_from_chars(key);
    lookup(table, s.as_str())
}

/// A string holding the characters of a literal.
pub fn lit(s: &str) -> (r: String)
    ensures
        r@ == s@,
{
    String::from_str(s)
}

pub open spec fn str_arg(s: Seq<char>) -> ArgVal {
    ArgVal::Str(s)
}

// ---------------------------------------------------------------------------
// Go

pub open spec fn is_ecdh_curve(s: Seq<char>) -> bool {
    s == "X25519"@ || s == "P256"@ || s == "P384"@ || s == "P521"@
}

/// The `*.Op`-style Go apis whose message names the function called.
pub open spec fn go_fn_capture_api(api: Seq<char>) -> bool {
    ||| api == "crypto/rsa.Op"@
    ||| api == "crypto/ecdsa.Op"@
    ||| api == "crypto/ed25519.Op"@
    ||| api == "crypto/dsa.Op"@
    ||| api == "crypto/mlkem.KeyOp"@
    ||| api == "crypto/mldsa.ParamSet"@
    ||| api == "circl/kem/xwing.Op"@
}

/// The captures a Go table match records, in the order they are bound.
pub open spec fn go_table_args(c: Seq<char>, api: Seq<char>) -> Seq<(Seq<char>, ArgVal)> {
    let e0 = Seq::<(Seq<char>, ArgVal)>::empty();
    let e1 = if c == "md5.New"@ || c == "md5.Sum"@ {
        insert_entry(e0, "pkg"@, str_arg("md5"@))
    } else if c == "sha1.New"@ || c == "sha1.Sum"@ {
        insert_entry(e0, "pkg"@, str_arg("sha1"@))
    } else {
        e0
    };
    let parts = split_chars(c, seq!['.']);
    let e2 = if is_prefix("circl/sign/mldsa"@, api) || is_prefix("circl/kem/mlkem"@, api) {
        let e = insert_entry(e1, "pkg"@, str_arg(parts[0]));
        if parts.len() > 1 {
            insert_entry(e, "fn"@, str_arg(parts[1]))
        } else {
            e
        }
    } else {
        e1
    };
    if go_fn_capture_api(api) && parts.len() > 1 {
        insert_entry(e2, "fn"@, str_arg(parts[1]))
    } else {
        e2
    }
}

/// What `match_go_callee` yields for callee text `c`.
pub open spec fn go_callee_spec(c: Seq<char>) -> Option<(Seq<char>, Seq<(Seq<char>, ArgVal)>)> {
    if is_prefix("ecdh."@, c) && is_ecdh_curve(c.skip("ecdh."@.len() as int)) {
        Some(("crypto/ecdh.Curve"@, seq![("curve_fn"@, str_arg(c.skip("ecdh."@.len() as int)))]))
    } else {
        match spec_lookup(go_callee_table(), c) {
            Some(api) => Some((api, go_table_args(c, api))),
            None => None,
        }
    }
}

/// The result of a callee match, as values.
pub open spec fn match_view(r: Option<(String, ArgMap)>) -> Option<(Seq<char>, Seq<(Seq<char>, ArgVal)>)> {
    match r {
        Some((api, args)) => Some((api@, args@)),
        None => None,
    }
}

fn chars_is_one_of4(v: &Vec<char>, a: &str, b: &str, c: &str, d: &str) -> (r: bool)
    ensures
        r == (v@ == a@ || v@ == b@ || v@ == c@ || v@ == d@),
{
    let s = string_from_chars(v);
    str_eq(s.as_str(), a) || str_eq(s.as_str(), b) || str_eq(s.as_str(), c) || str_eq(s.as_str(), d)
}

/// Go callee text → logical api name and captures.
pub fn match_go_callee(callee: &str) -> (r: Option<(String, ArgMap)>)
    ensures
        match_view(r) == go_callee_spec(callee@),
{
    let cv = chars_of(callee);
    let prefix = chars_of("ecdh.");
    if chars_starts_with(&cv, &prefix) {
        let rest = slice_chars(&cv, prefix.len(), cv.len());
        assert(rest@ =~= callee@.skip("ecdh."@.len() as int));
        if chars_is_one_of4(&rest, "X25519", "P256", "P384", "P521") {
            let mut args = ArgMap::new();
            args.insert(lit("curve_fn"), ArgValue::Str(string_from_chars(&rest)));
            assert(args@ =~= seq![("curve_fn"@, str_arg(callee@.skip("ecdh."@.len() as int)))]);
            return Some((lit("crypto/ecdh.Curve"), args));
        }
    }
    let table = go_callee_apis();
    let api = match lookup(&table, callee) {
        Some(a) => a,
        None => return None,
    };
    let mut args = ArgMap::new();
    if str_eq(callee, "md5.New") || str_eq(callee, "md5.Sum") {
        args.insert(lit("pkg"), ArgValue::Str(lit("md5")));
    } else if str_eq(callee, "sha1.New") || str_eq(callee, "sha1.Sum") {
        args.insert(lit("pkg"), ArgValue::Str(lit("sha1")));
    }
    let parts = split_on_chars(&cv, &one_char('.'));
    proof { crate::split::lemma_split_chars_nonempty(callee@, seq!['.']); }
    if str_starts_with(api, "circl/sign/mldsa") || str_starts_with(api, "circl/kem/mlkem") {
        args.insert(lit("pkg"), ArgValue::Str(string_from_chars(&parts[0])));
        if parts.len() > 1 {
            args.insert(lit("fn"), ArgValue::Str(string_from_chars(&parts[1])));
        }
    }
    let op_api = str_eq(api, "crypto/rsa.Op") || str_eq(api, "crypto/ecdsa.Op") || str_eq(
        api,
        "crypto/ed25519.Op",
    ) || str_eq(api, "crypto/dsa.Op") || str_eq(api, "crypto/mlkem.KeyOp") || str_eq(
        api,
        "crypto/mldsa.ParamSet",
    ) || str_eq(api, "circl/kem/xwing.Op");
    if op_api && parts.len() > 1 {
        args.insert(lit("fn"), ArgValue::Str(string_from_chars(&parts[1])));
    }
    Some((lit(api), args))
}

// ---------------------------------------------------------------------------
// Table-only languages

/// A plain table match: the api and no captures.
pub open spec fn plain_spec(t: Seq<(Seq<char>, Seq<char>)>, c: Seq<char>) -> Option<(Seq<char>, Seq<(Seq<char>, ArgVal)>)> {
    match spec_lookup(t, c) {
        Some(api) => Some((api, Seq::empty())),
        None => None,
    }
}

fn plain_match(table: &Vec<(&'static str, &'static str)>, callee: &str) -> (r: Option<(String, ArgMap)>)
    ensures
        match_view(r) == plain_spec(pairs_view(table@), callee@),
{
    match lookup(table, callee) {
        Some(api) => Some((lit(api), ArgMap::new())),
        None => None,
    }
}

/// Python callee text → api name.
pub fn match_python_callee(callee: &str) -> (r: Option<(String, ArgMap)>)
    ensures
        match_view(r) == plain_spec(python_callee_table(), callee@),
{
    plain_match(&python_callee_apis(), callee)
}

/// Java `Class.method` invocation text → api name.
pub fn match_java_callee(callee: &str) -> (r: Option<(String, ArgMap)>)
    ensures
        match_view(r) == plain_spec(java_callee_table(), callee@),
{
    plain_match(&java_callee_apis(), callee)
}

/// Java `new ClassName()` → api name.
pub fn match_java_ctor(class_name: &str) -> (r: Option<(String, ArgMap)>)
    ensures
        match_view(r) == plain_spec(java_ctor_table(), class_name@),
{
    plain_match(&java_ctor_apis(), class_name)
}

/// C# `Type.Method` text → api name.
pub fn match_csharp_callee(callee: &str) -> (r: Option<(String, ArgMap)>)
    ensures
        match_view(r) == plain_spec(csharp_callee_table(), callee@),
{
    plain_match(&csharp_callee_apis(), callee)
}

/// C# `new ClassName()` → api name.
pub fn match_csharp_ctor(class_name: &str) -> (r: Option<(String, ArgMap)>)
    ensures
        match_view(r) == plain_spec(csharp_ctor_table(), class_name@),
{
    plain_match(&csharp_ctor_apis(), class_name)
}

// ---------------------------------------------------------------------------
// C / C++

/// What `match_c_callee` yields: the api, and for the liboqs stack-form
/// apis the callee itself as `fn`.
pub open spec fn c_callee_spec(c: Seq<char>) -> Option<(Seq<char>, Seq<(Seq<char>, ArgVal)>)> {
    match spec_lookup(c_callee_table(), c) {
        Some(api) => Some(
            (
                api,
                if api == "liboqs.OQS_KEM_stack"@ || api == "liboqs.OQS_SIG_stack"@ {
                    seq![("fn"@, str_arg(c))]
                } else {
                    Seq::empty()
                },
            ),
        ),
        None => None,
    }
}

/// C/C++ function identifier → api name.
pub fn match_c_callee(callee: &str) -> (r: Option<(String, ArgMap)>)
    ensures
        match_view(r) == c_callee_spec(callee@),
{
    let table = c_callee_apis();
    let api = match lookup(&table, callee) {
        Some(a) => a,
        None => return None,
    };
    let mut args = ArgMap::new();
    if str_eq(api, "liboqs.OQS_KEM_stack") || str_eq(api, "liboqs.OQS_SIG_stack") {
        args.insert(lit("fn"), ArgValue::Str(lit(callee)));
        assert(args@ =~= seq![("fn"@, str_arg(callee@))]);
    }
    Some((lit(api), args))
}

// ---------------------------------------------------------------------------
// JavaScript / TypeScript

/// `s.rsplit_once('.')`: the text before and after the last `.`.
pub open spec fn rsplit_once_dot(s: Seq<char>) -> Option<(Seq<char>, Seq<char>)> {
    let parts = split_chars(s, seq!['.']);
    if parts.len() < 2 {
        None
    } else {
        Some((s.subrange(0, s.len() - parts.last().len() - 1), parts.last()))
    }
}

/// What `match_webcrypto_callee` yields for callee text `c`.
pub open spec fn webcrypto_spec(c: Seq<char>) -> Option<Seq<char>> {
    match rsplit_once_dot(c) {
        None => None,
        Some((receiver, method)) => match spec_lookup(webcrypto_method_table(), trim_ws(method)) {
            None => None,
            Some(api) => {
                let recv = trim_end_ws(receiver);
                if recv == "subtle"@ || is_suffix(".subtle"@, recv) {
                    Some(api)
                } else {
                    None
                }
            },
        },
    }
}

/// The last segment of a split is a suffix of the text, preceded by the
/// separator when there is more than one segment.
proof fn lemma_split_last_suffix(s: Seq<char>, seps: Seq<char>)
    ensures
        split_chars(s, seps).len() >= 1,
        ({
            let parts = split_chars(s, seps);
            let l = parts.last();
            &&& l.len() <= s.len()
            &&& s.subrange(s.len() - l.len(), s.len() as int) == l
            &&& parts.len() >= 2 ==> l.len() < s.len() && seps.contains(s[s.len() - l.len() - 1])
        }),
    decreases s.len(),
{
    crate::split::lemma_split_chars_nonempty(s, seps);
    if s.len() > 0 {
        lemma_split_last_suffix(s.drop_last(), seps);
        let prev = split_chars(s.drop_last(), seps);
        let parts = split_chars(s, seps);
        if seps.contains(s.last()) {
            assert(parts.last() =~= Seq::<char>::empty());
            assert(s.subrange(s.len() as int, s.len() as int) =~= Seq::<char>::empty());
        } else {
            let d = s.drop_last();
            let pl = prev.last();
            assert(parts.last() == pl.push(s.last()));
            assert(s.subrange(s.len() - pl.len() - 1, s.len() as int) =~= d.subrange(
                d.len() - pl.len(),
                d.len() as int,
            ).push(s.last()));
            if parts.len() >= 2 {
                assert(s[s.len() - pl.len() - 2] == d[d.len() - pl.len() - 1]);
            }
        }
    }
}

/// Resolve a `SubtleCrypto` method call reached through any receiver chain
/// ending in `subtle`.
pub fn match_webcrypto_callee(callee: &str) -> (r: Option<&'static str>)
    ensures
        match r {
            Some(api) => webcrypto_spec(callee@) == Some(api@),
            None => webcrypto_spec(callee@) is None,
        },
{
    let cv = chars_of(callee);
    let parts = split_on_chars(&cv, &one_char('.'));
    proof { lemma_split_last_suffix(callee@, seq!['.']); }
    if parts.len() < 2 {
        return None;
    }
    let last = parts.len() - 1;
    let method_len = parts[last].len();
    let receiver = slice_chars(&cv, 0, cv.len() - method_len - 1);
    let method = trim_chars(&parts[last]);
    let table = webcrypto_method_apis();
    let api = match lookup_chars(&table, &method) {
        Some(a) => a,
        None => return None,
    };
    let recv = trim_end_chars(&receiver);
    let recv_s = string_from_chars(&recv);
    if str_eq(recv_s.as_str(), "subtle") || str_ends_with(recv_s.as_str(), ".subtle") {
        Some(api)
    } else {
        None
    }
}

/// What `match_js_callee` yields for callee text `c`.
pub open spec fn js_callee_spec(c: Seq<char>) -> Option<(Seq<char>, Seq<(Seq<char>, ArgVal)>)> {
    match webcrypto_spec(c) {
        Some(api) => Some((api, Seq::empty())),
        None => plain_spec(js_callee_table(), c),
    }
}

/// JavaScript / TypeScript callee text → api name. WebCrypto calls are
/// recognised through any receiver chain first.
pub fn match_js_callee(callee: &str) -> (r: Option<(String, ArgMap)>)
    ensures
        match_view(r) == js_callee_spec(callee@),
{
    if let Some(api) = match_webcrypto_callee(callee) {
        return Some((lit(api), ArgMap::new()));
    }
    plain_match(&js_callee_apis(), callee)
}

} // verus!
