//! Reading call arguments off a syntax tree: the argument at a position as
//! a string literal, an integer, a callee, a selector field or a constant
//! path; Python keyword arguments; JS object-literal properties.
use vstd::prelude::*;
use crate::syntax::{
    SyntaxTree, child_by_field, field_of, is_real_arg, kind_is, lemma_field_of_bounds, node_wf,
    nth_real, nth_real_arg, parse_i64, parse_i64_spec, quote_set, text_of, tree_wf, unquoted,
};
use crate::text::{chars_of, str_eq, string_from_chars, trim_set, trim_set_chars};

verus! {

pub open spec fn text_at(ns: Seq<crate::syntax::SyntaxNode>, o: Option<int>) -> Option<Seq<char>> {
    match o {
        Some(i) => Some(text_of(ns, i)),
        None => None,
    }
}

/// A call's callee at position `n` (`EVP_aes_256_gcm()` gives
/// `EVP_aes_256_gcm`), or a bare identifier there.
pub open spec fn call_ident_at(ns: Seq<crate::syntax::SyntaxNode>, args: int, n: int) -> Option<Seq<char>> {
    match nth_real(ns, args, n) {
        None => None,
        Some(a) => if kind_is(ns, a, "call_expression"@) {
            text_at(ns, field_of(ns, a, "function"@))
        } else if kind_is(ns, a, "identifier"@) {
            Some(text_of(ns, a))
        } else {
            None
        },
    }
}

/// A string literal at position `n`, quotes stripped.
pub open spec fn string_at(ns: Seq<crate::syntax::SyntaxNode>, args: int, n: int) -> Option<Seq<char>> {
    match nth_real(ns, args, n) {
        Some(a) => if kind_is(ns, a, "string_literal"@) || kind_is(ns, a, "string"@) {
            Some(trim_set(text_of(ns, a), quote_set()))
        } else {
            None
        },
        None => None,
    }
}

/// An integer literal at position `n`.
pub open spec fn int_at(ns: Seq<crate::syntax::SyntaxNode>, args: int, n: int) -> Option<int> {
    match nth_real(ns, args, n) {
        Some(a) => parse_i64_spec(text_of(ns, a)),
        None => None,
    }
}

/// The method of a `pkg.Method()` call at position `n`.
pub open spec fn call_method_at(ns: Seq<crate::syntax::SyntaxNode>, args: int, n: int) -> Option<Seq<char>> {
    match nth_real(ns, args, n) {
        Some(a) => match field_of(ns, a, "function"@) {
            Some(f) => text_at(ns, field_of(ns, f, "field"@)),
            None => None,
        },
        None => None,
    }
}

/// The field of a `pkg.Field` selector at position `n`.
pub open spec fn selector_field_at(ns: Seq<crate::syntax::SyntaxNode>, args: int, n: int) -> Option<Seq<char>> {
    match nth_real(ns, args, n) {
        Some(a) => if kind_is(ns, a, "selector_expression"@) {
            text_at(ns, field_of(ns, a, "field"@))
        } else {
            None
        },
        None => None,
    }
}

/// The first named child of a node.
pub open spec fn first_named(ns: Seq<crate::syntax::SyntaxNode>, i: int) -> Option<int> {
    if ns[i].named_children@.len() > 0 {
        Some(ns[i].named_children@[0] as int)
    } else {
        None
    }
}

/// The field name of a C# `TypeName.field` member access at position `n`,
/// through the `argument` wrapper C# puts around each argument.
pub open spec fn member_name_at(ns: Seq<crate::syntax::SyntaxNode>, args: int, n: int) -> Option<Seq<char>> {
    match nth_real(ns, args, n) {
        Some(a) => {
            let expr = if kind_is(ns, a, "argument"@) {
                first_named(ns, a)
            } else {
                Some(a)
            };
            match expr {
                Some(e) => if kind_is(ns, e, "member_access_expression"@) {
                    text_at(ns, field_of(ns, e, "name"@))
                } else {
                    None
                },
                None => None,
            }
        },
        None => None,
    }
}

/// The attribute of a `mod.Attr(...)` call at position `n`.
pub open spec fn call_attr_at(ns: Seq<crate::syntax::SyntaxNode>, args: int, n: int) -> Option<Seq<char>> {
    match nth_real(ns, args, n) {
        Some(a) => if kind_is(ns, a, "call"@) {
            match field_of(ns, a, "function"@) {
                Some(f) => if kind_is(ns, f, "attribute"@) {
                    text_at(ns, field_of(ns, f, "attribute"@))
                } else {
                    None
                },
                None => None,
            }
        } else {
            None
        },
        None => None,
    }
}

/// The attribute of a bare `mod.NAME` at position `n`.
pub open spec fn attr_name_at(ns: Seq<crate::syntax::SyntaxNode>, args: int, n: int) -> Option<Seq<char>> {
    match nth_real(ns, args, n) {
        Some(a) => if kind_is(ns, a, "attribute"@) {
            text_at(ns, field_of(ns, a, "attribute"@))
        } else {
            None
        },
        None => None,
    }
}

/// What a scan for a keyword argument finds.
pub enum KwScan {
    /// No keyword argument has the name.
    Missing,
    /// A keyword argument lacked its name or value.
    Broken,
    /// The value node of the keyword argument.
    Value(int),
}

/// Scan the children of `args` from `k` for the keyword argument `name`.
pub open spec fn kw_scan(ns: Seq<crate::syntax::SyntaxNode>, args: int, name: Seq<char>, k: int) -> KwScan
    decreases ns[args].children@.len() - k,
{
    let ch = ns[args].children@;
    if k < 0 || k >= ch.len() {
        KwScan::Missing
    } else if !kind_is(ns, ch[k] as int, "keyword_argument"@) {
        kw_scan(ns, args, name, k + 1)
    } else {
        match field_of(ns, ch[k] as int, "name"@) {
            None => KwScan::Broken,
            Some(nm) => if text_of(ns, nm) != name {
                kw_scan(ns, args, name, k + 1)
            } else {
                match field_of(ns, ch[k] as int, "value"@) {
                    None => KwScan::Broken,
                    Some(v) => KwScan::Value(v),
                }
            },
        }
    }
}

pub open spec fn py_quotes() -> Seq<char> {
    seq!['"', '\'']
}

/// A string-literal keyword argument, quotes stripped.
pub open spec fn kw_string(ns: Seq<crate::syntax::SyntaxNode>, args: int, name: Seq<char>) -> Option<Seq<char>> {
    match kw_scan(ns, args, name, 0) {
        KwScan::Value(v) => if kind_is(ns, v, "string"@) {
            Some(trim_set(text_of(ns, v), py_quotes()))
        } else {
            None
        },
        _ => None,
    }
}

/// An integer keyword argument.
pub open spec fn kw_int(ns: Seq<crate::syntax::SyntaxNode>, args: int, name: Seq<char>) -> Option<int> {
    match kw_scan(ns, args, name, 0) {
        KwScan::Value(v) => parse_i64_spec(text_of(ns, v)),
        _ => None,
    }
}

/// A keyword argument whose value is a bare identifier.
pub open spec fn kw_identifier(ns: Seq<crate::syntax::SyntaxNode>, args: int, name: Seq<char>) -> Option<Seq<char>> {
    match kw_scan(ns, args, name, 0) {
        KwScan::Value(v) => if kind_is(ns, v, "identifier"@) {
            Some(text_of(ns, v))
        } else {
            None
        },
        _ => None,
    }
}

/// The first child of `args` that is a call, from `k`.
pub open spec fn first_call_child(ns: Seq<crate::syntax::SyntaxNode>, args: int, k: int) -> Option<int>
    decreases ns[args].children@.len() - k,
{
    let ch = ns[args].children@;
    if k < 0 || k >= ch.len() {
        None
    } else if kind_is(ns, ch[k] as int, "call"@) {
        Some(ch[k] as int)
    } else {
        first_call_child(ns, args, k + 1)
    }
}

/// The attribute of the first `obj.attr(...)` call among the arguments.
pub open spec fn first_call_method(ns: Seq<crate::syntax::SyntaxNode>, args: int) -> Option<Seq<char>> {
    match first_call_child(ns, args, 0) {
        Some(c) => match field_of(ns, c, "function"@) {
            Some(f) => text_at(ns, field_of(ns, f, "attribute"@)),
            None => None,
        },
        None => None,
    }
}

/// The first argument, when it is a bare identifier.
pub open spec fn first_identifier(ns: Seq<crate::syntax::SyntaxNode>, args: int) -> Option<Seq<char>> {
    match nth_real(ns, args, 0) {
        Some(a) => if kind_is(ns, a, "identifier"@) {
            Some(text_of(ns, a))
        } else {
            None
        },
        None => None,
    }
}

/// The last path segment of a Rust constant at position `n`:
/// `&rcgen::PKCS_ML_DSA_44`, `rcgen::PKCS_ML_DSA_44` and `PKCS_ML_DSA_44`
/// all give `PKCS_ML_DSA_44`.
pub open spec fn const_name_at(ns: Seq<crate::syntax::SyntaxNode>, args: int, n: int) -> Option<Seq<char>> {
    match nth_real(ns, args, n) {
        Some(a0) => {
            let a = if kind_is(ns, a0, "reference_expression"@) {
                field_of(ns, a0, "value"@)
            } else {
                Some(a0)
            };
            match a {
                Some(x) => if kind_is(ns, x, "identifier"@) {
                    Some(text_of(ns, x))
                } else if kind_is(ns, x, "scoped_identifier"@) {
                    text_at(ns, field_of(ns, x, "name"@))
                } else {
                    None
                },
                None => None,
            }
        },
        None => None,
    }
}

/// The kind of the argument at position `n`, normalised.
pub open spec fn arg_kind_at(ns: Seq<crate::syntax::SyntaxNode>, args: int, n: int) -> Option<Seq<char>> {
    match nth_real(ns, args, n) {
        Some(a) => Some(
            if kind_is(ns, a, "string"@) || kind_is(ns, a, "string_fragment"@) || kind_is(ns, a, "template_string"@) {
                "string"@
            } else if kind_is(ns, a, "identifier"@) {
                "identifier"@
            } else if kind_is(ns, a, "object"@) || kind_is(ns, a, "object_expression"@) {
                "object"@
            } else if kind_is(ns, a, "call_expression"@) {
                "call"@
            } else {
                "other"@
            },
        ),
        None => None,
    }
}

pub open spec fn is_js_string_kind(ns: Seq<crate::syntax::SyntaxNode>, i: int) -> bool {
    kind_is(ns, i, "string"@) || kind_is(ns, i, "string_fragment"@) || kind_is(ns, i, "template_string"@)
}

pub open spec fn is_js_object_kind(ns: Seq<crate::syntax::SyntaxNode>, i: int) -> bool {
    kind_is(ns, i, "object"@) || kind_is(ns, i, "object_expression"@)
}

/// Property `key` of the object literal `obj`, from child `k` on: a plain
/// literal, or the `name` of a nested object.
pub open spec fn js_prop(ns: Seq<crate::syntax::SyntaxNode>, obj: int, key: Seq<char>, k: int) -> Option<Seq<char>>
    decreases ns.len() - obj, ns[obj].children@.len() - k,
{
    let ch = ns[obj].children@;
    if obj < 0 || obj >= ns.len() || k < 0 || k >= ch.len() {
        None
    } else {
        let p = ch[k] as int;
        if !(kind_is(ns, p, "pair"@) || kind_is(ns, p, "property"@)) {
            js_prop(ns, obj, key, k + 1)
        } else if !(field_of(ns, p, "key"@) matches Some(kn) && trim_set(text_of(ns, kn), quote_set()) == key) {
            js_prop(ns, obj, key, k + 1)
        } else {
            match field_of(ns, p, "value"@) {
                None => None,
                Some(v) => if kind_is(ns, v, "number"@) || is_js_string_kind(ns, v) {
                    Some(trim_set(text_of(ns, v), quote_set()))
                } else if is_js_object_kind(ns, v) && obj < v < ns.len() {
                    js_prop(ns, v, "name"@, 0)
                } else {
                    None
                },
            }
        }
    }
}

/// Property `key` of the object literal at position `n`.
pub open spec fn object_prop_at(ns: Seq<crate::syntax::SyntaxNode>, args: int, n: int, key: Seq<char>) -> Option<Seq<char>> {
    match nth_real(ns, args, n) {
        Some(a) => if is_js_object_kind(ns, a) {
            js_prop(ns, a, key, 0)
        } else {
            None
        },
        None => None,
    }
}

/// The algorithm a WebCrypto argument at position `n` names: a bare name
/// string, or the `name` of an algorithm object.
pub open spec fn algorithm_name_at(ns: Seq<crate::syntax::SyntaxNode>, args: int, n: int) -> Option<Seq<char>> {
    match nth_real(ns, args, n) {
        Some(a) => if is_js_string_kind(ns, a) {
            Some(trim_set(text_of(ns, a), quote_set()))
        } else if is_js_object_kind(ns, a) {
            js_prop(ns, a, "name"@, 0)
        } else {
            None
        },
        None => None,
    }
}

// ---------------------------------------------------------------------------
// Executable readers.

fn kind_eq(t: &SyntaxTree, i: usize, k: &str) -> (r: bool)
    requires
        i < t.view_nodes().len(),
    ensures
        r == kind_is(t.view_nodes(), i as int, k@),
{
    str_eq(t.node(i).kind.as_str(), k)
}

fn text(t: &SyntaxTree, i: usize) -> (r: String)
    requires
        i < t.view_nodes().len(),
    ensures
        r@ == text_of(t.view_nodes(), i as int),
{
    t.node(i).text.clone()
}

fn field_text(t: &SyntaxTree, i: usize, name: &str) -> (r: Option<String>)
    requires
        i < t.view_nodes().len(),
    ensures
        match r {
            Some(s) => text_at(t.view_nodes(), field_of(t.view_nodes(), i as int, name@)) == Some(s@),
            None => text_at(t.view_nodes(), field_of(t.view_nodes(), i as int, name@)) is None,
        },
{
    match child_by_field(t, i, name) {
        Some(c) => Some(text(t, c)),
        None => None,
    }
}

pub fn nth_arg_call_ident(t: &SyntaxTree, args: usize, n: usize) -> (r: Option<String>)
    requires
        args < t.view_nodes().len(),
    ensures
        match r {
            Some(s) => call_ident_at(t.view_nodes(), args as int, n as int) == Some(s@),
            None => call_ident_at(t.view_nodes(), args as int, n as int) is None,
        },
{
    let a = match nth_real_arg(t, args, n) {
        Some(a) => a,
        None => {
            return None;
        },
    };
    if kind_eq(t, a, "call_expression") {
        field_text(t, a, "function")
    } else if kind_eq(t, a, "identifier") {
        Some(text(t, a))
    } else {
        None
    }
}

pub fn nth_arg_string(t: &SyntaxTree, args: usize, n: usize) -> (r: Option<String>)
    requires
        args < t.view_nodes().len(),
    ensures
        match r {
            Some(s) => string_at(t.view_nodes(), args as int, n as int) == Some(s@),
            None => string_at(t.view_nodes(), args as int, n as int) is None,
        },
{
    let a = match nth_real_arg(t, args, n) {
        Some(a) => a,
        None => {
            return None;
        },
    };
    if !(kind_eq(t, a, "string_literal") || kind_eq(t, a, "string")) {
        return None;
    }
    Some(unquoted(t.node(a).text.as_str()))
}

pub fn nth_arg_int(t: &SyntaxTree, args: usize, n: usize) -> (r: Option<i64>)
    requires
        args < t.view_nodes().len(),
    ensures
        match r {
            Some(v) => int_at(t.view_nodes(), args as int, n as int) == Some(v as int),
            None => int_at(t.view_nodes(), args as int, n as int) is None,
        },
{
    match nth_real_arg(t, args, n) {
        Some(a) => parse_i64(t.node(a).text.as_str()),
        None => None,
    }
}

pub fn nth_arg_call_method(t: &SyntaxTree, args: usize, n: usize) -> (r: Option<String>)
    requires
        args < t.view_nodes().len(),
    ensures
        match r {
            Some(s) => call_method_at(t.view_nodes(), args as int, n as int) == Some(s@),
            None => call_method_at(t.view_nodes(), args as int, n as int) is None,
        },
{
    let a = match nth_real_arg(t, args, n) {
        Some(a) => a,
        None => {
            return None;
        },
    };
    match child_by_field(t, a, "function") {
        Some(f) => field_text(t, f, "field"),
        None => None,
    }
}

pub fn nth_arg_selector_field(t: &SyntaxTree, args: usize, n: usize) -> (r: Option<String>)
    requires
        args < t.view_nodes().len(),
    ensures
        match r {
            Some(s) => selector_field_at(t.view_nodes(), args as int, n as int) == Some(s@),
            None => selector_field_at(t.view_nodes(), args as int, n as int) is None,
        },
{
    let a = match nth_real_arg(t, args, n) {
        Some(a) => a,
        None => {
            return None;
        },
    };
    if !kind_eq(t, a, "selector_expression") {
        return None;
    }
    field_text(t, a, "field")
}

pub fn nth_csharp_arg_member_access_name(t: &SyntaxTree, args: usize, n: usize) -> (r: Option<String>)
    requires
        args < t.view_nodes().len(),
    ensures
        match r {
            Some(s) => member_name_at(t.view_nodes(), args as int, n as int) == Some(s@),
            None => member_name_at(t.view_nodes(), args as int, n as int) is None,
        },
{
    proof {
        use_type_invariant(t);
    }
    let a = match nth_real_arg(t, args, n) {
        Some(a) => a,
        None => {
            return None;
        },
    };
    let expr = if kind_eq(t, a, "argument") {
        let node = t.node(a);
        if node.named_children.len() > 0 {
            proof {
                assert(node_wf(t.view_nodes(), a as int));
            }
            node.named_children[0]
        } else {
            return None;
        }
    } else {
        a
    };
    if !kind_eq(t, expr, "member_access_expression") {
        return None;
    }
    field_text(t, expr, "name")
}

pub fn nth_arg_call_attr(t: &SyntaxTree, args: usize, n: usize) -> (r: Option<String>)
    requires
        args < t.view_nodes().len(),
    ensures
        match r {
            Some(s) => call_attr_at(t.view_nodes(), args as int, n as int) == Some(s@),
            None => call_attr_at(t.view_nodes(), args as int, n as int) is None,
        },
{
    let a = match nth_real_arg(t, args, n) {
        Some(a) => a,
        None => {
            return None;
        },
    };
    if !kind_eq(t, a, "call") {
        return None;
    }
    let f = match child_by_field(t, a, "function") {
        Some(f) => f,
        None => {
            return None;
        },
    };
    if !kind_eq(t, f, "attribute") {
        return None;
    }
    field_text(t, f, "attribute")
}

pub fn nth_arg_attr_name(t: &SyntaxTree, args: usize, n: usize) -> (r: Option<String>)
    requires
        args < t.view_nodes().len(),
    ensures
        match r {
            Some(s) => attr_name_at(t.view_nodes(), args as int, n as int) == Some(s@),
            None => attr_name_at(t.view_nodes(), args as int, n as int) is None,
        },
{
    let a = match nth_real_arg(t, args, n) {
        Some(a) => a,
        None => {
            return None;
        },
    };
    if !kind_eq(t, a, "attribute") {
        return None;
    }
    field_text(t, a, "attribute")
}

/// Find the keyword argument `name` among the children of `args`.
fn keyword_scan(t: &SyntaxTree, args: usize, name: &str) -> (r: (bool, Option<usize>))
    requires
        args < t.view_nodes().len(),
    ensures
        match kw_scan(t.view_nodes(), args as int, name@, 0) {
            KwScan::Missing => r == (false, None::<usize>),
            KwScan::Broken => r == (true, None::<usize>),
            KwScan::Value(v) => r.1 matches Some(x) && x as int == v && x < t.view_nodes().len(),
        },
{
    proof {
        use_type_invariant(t);
        assert(node_wf(t.view_nodes(), args as int));
    }
    let node = t.node(args);
    let mut k: usize = 0;
    while k < node.children.len()
        invariant
            *node == t.view_nodes()[args as int],
            args < t.view_nodes().len(),
            node_wf(t.view_nodes(), args as int),
            k <= node.children@.len(),
            kw_scan(t.view_nodes(), args as int, name@, 0) == kw_scan(t.view_nodes(), args as int, name@, k as int),
        decreases node.children.len() - k,
    {
        let c = node.children[k];
        if kind_eq(t, c, "keyword_argument") {
            match child_by_field(t, c, "name") {
                None => {
                    return (true, None);
                },
                Some(nm) => {
                    if str_eq(t.node(nm).text.as_str(), name) {
                        return match child_by_field(t, c, "value") {
                            None => (true, None),
                            Some(v) => (false, Some(v)),
                        };
                    }
                },
            }
        }
        k = k + 1;
    }
    (false, None)
}

pub fn python_keyword_string(t: &SyntaxTree, args: usize, name: &str) -> (r: Option<String>)
    requires
        args < t.view_nodes().len(),
    ensures
        match r {
            Some(s) => kw_string(t.view_nodes(), args as int, name@) == Some(s@),
            None => kw_string(t.view_nodes(), args as int, name@) is None,
        },
{
    match keyword_scan(t, args, name).1 {
        Some(v) => {
            if !kind_eq(t, v, "string") {
                return None;
            }
            let mut q: Vec<char> = Vec::new();
            q.push('"');
            q.push('\'');
            assert(q@ =~= py_quotes());
            Some(string_from_chars(&trim_set_chars(&chars_of(t.node(v).text.as_str()), &q)))
        },
        None => None,
    }
}

pub fn python_keyword_int(t: &SyntaxTree, args: usize, name: &str) -> (r: Option<i64>)
    requires
        args < t.view_nodes().len(),
    ensures
        match r {
            Some(v) => kw_int(t.view_nodes(), args as int, name@) == Some(v as int),
            None => kw_int(t.view_nodes(), args as int, name@) is None,
        },
{
    match keyword_scan(t, args, name).1 {
        Some(v) => parse_i64(t.node(v).text.as_str()),
        None => None,
    }
}

pub fn python_keyword_identifier(t: &SyntaxTree, args: usize, name: &str) -> (r: Option<String>)
    requires
        args < t.view_nodes().len(),
    ensures
        match r {
            Some(s) => kw_identifier(t.view_nodes(), args as int, name@) == Some(s@),
            None => kw_identifier(t.view_nodes(), args as int, name@) is None,
        },
{
    match keyword_scan(t, args, name).1 {
        Some(v) => if kind_eq(t, v, "identifier") {
            Some(text(t, v))
        } else {
            None
        },
        None => None,
    }
}

pub fn python_first_arg_call_method(t: &SyntaxTree, args: usize) -> (r: Option<String>)
    requires
        args < t.view_nodes().len(),
    ensures
        match r {
            Some(s) => first_call_method(t.view_nodes(), args as int) == Some(s@),
            None => first_call_method(t.view_nodes(), args as int) is None,
        },
{
    proof {
        use_type_invariant(t);
        assert(node_wf(t.view_nodes(), args as int));
    }
    let node = t.node(args);
    let mut k: usize = 0;
    while k < node.children.len()
        invariant
            *node == t.view_nodes()[args as int],
            args < t.view_nodes().len(),
            node_wf(t.view_nodes(), args as int),
            k <= node.children@.len(),
            first_call_child(t.view_nodes(), args as int, 0) == first_call_child(t.view_nodes(), args as int, k as int),
        decreases node.children.len() - k,
    {
        let c = node.children[k];
        if kind_eq(t, c, "call") {
            return match child_by_field(t, c, "function") {
                Some(f) => field_text(t, f, "attribute"),
                None => None,
            };
        }
        k = k + 1;
    }
    None
}

pub fn python_first_arg_identifier(t: &SyntaxTree, args: usize) -> (r: Option<String>)
    requires
        args < t.view_nodes().len(),
    ensures
        match r {
            Some(s) => first_identifier(t.view_nodes(), args as int) == Some(s@),
            None => first_identifier(t.view_nodes(), args as int) is None,
        },
{
    match nth_real_arg(t, args, 0) {
        Some(a) => if kind_eq(t, a, "identifier") {
            Some(text(t, a))
        } else {
            None
        },
        None => None,
    }
}

pub fn rust_arg_const_name(t: &SyntaxTree, args: usize, n: usize) -> (r: Option<String>)
    requires
        args < t.view_nodes().len(),
    ensures
        match r {
            Some(s) => const_name_at(t.view_nodes(), args as int, n as int) == Some(s@),
            None => const_name_at(t.view_nodes(), args as int, n as int) is None,
        },
{
    let a0 = match nth_real_arg(t, args, n) {
        Some(a) => a,
        None => {
            return None;
        },
    };
    let a = if kind_eq(t, a0, "reference_expression") {
        match child_by_field(t, a0, "value") {
            Some(v) => v,
            None => {
                return None;
            },
        }
    } else {
        a0
    };
    if kind_eq(t, a, "identifier") {
        Some(text(t, a))
    } else if kind_eq(t, a, "scoped_identifier") {
        field_text(t, a, "name")
    } else {
        None
    }
}

pub fn nth_real_arg_kind(t: &SyntaxTree, args: usize, n: usize) -> (r: Option<&'static str>)
    requires
        args < t.view_nodes().len(),
    ensures
        match r {
            Some(s) => arg_kind_at(t.view_nodes(), args as int, n as int) == Some(s@),
            None => arg_kind_at(t.view_nodes(), args as int, n as int) is None,
        },
{
    let a = match nth_real_arg(t, args, n) {
        Some(a) => a,
        None => {
            return None;
        },
    };
    Some(
        if kind_eq(t, a, "string") || kind_eq(t, a, "string_fragment") || kind_eq(t, a, "template_string") {
            "string"
        } else if kind_eq(t, a, "identifier") {
            "identifier"
        } else if kind_eq(t, a, "object") || kind_eq(t, a, "object_expression") {
            "object"
        } else if kind_eq(t, a, "call_expression") {
            "call"
        } else {
            "other"
        },
    )
}

/// Property `key` of the object literal `obj`.
pub fn js_object_prop(t: &SyntaxTree, obj: usize, key: &str) -> (r: Option<String>)
    requires
        obj < t.view_nodes().len(),
    ensures
        match r {
            Some(s) => js_prop(t.view_nodes(), obj as int, key@, 0) == Some(s@),
            None => js_prop(t.view_nodes(), obj as int, key@, 0) is None,
        },
    decreases t.view_nodes().len() - obj,
{
    proof {
        use_type_invariant(t);
        assert(node_wf(t.view_nodes(), obj as int));
    }
    let node = t.node(obj);
    let mut k: usize = 0;
    while k < node.children.len()
        invariant
            *node == t.view_nodes()[obj as int],
            obj < t.view_nodes().len(),
            node_wf(t.view_nodes(), obj as int),
            tree_wf(t.view_nodes()),
            k <= node.children@.len(),
            js_prop(t.view_nodes(), obj as int, key@, 0) == js_prop(t.view_nodes(), obj as int, key@, k as int),
        decreases node.children.len() - k,
    {
        let p = node.children[k];
        if kind_eq(t, p, "pair") || kind_eq(t, p, "property") {
            let key_matches = match child_by_field(t, p, "key") {
                Some(kn) => str_eq(unquoted(t.node(kn).text.as_str()).as_str(), key),
                None => false,
            };
            if key_matches {
                let v = match child_by_field(t, p, "value") {
                    Some(v) => v,
                    None => {
                        return None;
                    },
                };
                if kind_eq(t, v, "number") || kind_eq(t, v, "string") || kind_eq(t, v, "string_fragment") || kind_eq(
                    t,
                    v,
                    "template_string",
                ) {
                    return Some(unquoted(t.node(v).text.as_str()));
                } else if kind_eq(t, v, "object") || kind_eq(t, v, "object_expression") {
                    return js_object_prop(t, v, "name");
                } else {
                    return None;
                }
            }
        }
        k = k + 1;
    }
    None
}

pub fn js_object_arg_prop(t: &SyntaxTree, args: usize, n: usize, key: &str) -> (r: Option<String>)
    requires
        args < t.view_nodes().len(),
    ensures
        match r {
            Some(s) => object_prop_at(t.view_nodes(), args as int, n as int, key@) == Some(s@),
            None => object_prop_at(t.view_nodes(), args as int, n as int, key@) is None,
        },
{
    let a = match nth_real_arg(t, args, n) {
        Some(a) => a,
        None => {
            return None;
        },
    };
    if !(kind_eq(t, a, "object") || kind_eq(t, a, "object_expression")) {
        return None;
    }
    js_object_prop(t, a, key)
}

pub fn js_arg_algorithm_name(t: &SyntaxTree, args: usize, n: usize) -> (r: Option<String>)
    requires
        args < t.view_nodes().len(),
    ensures
        match r {
            Some(s) => algorithm_name_at(t.view_nodes(), args as int, n as int) == Some(s@),
            None => algorithm_name_at(t.view_nodes(), args as int, n as int) is None,
        },
{
    let a = match nth_real_arg(t, args, n) {
        Some(a) => a,
        None => {
            return None;
        },
    };
    if kind_eq(t, a, "string") || kind_eq(t, a, "string_fragment") || kind_eq(t, a, "template_string") {
        Some(unquoted(t.node(a).text.as_str()))
    } else if kind_eq(t, a, "object") || kind_eq(t, a, "object_expression") {
        js_object_prop(t, a, "name")
    } else {
        None
    }
}

} // verus!
