//! Go sites recognised by their shape rather than by a callee: TLS curve
//! preferences and minimum version, SSH key exchanges, liboqs-go
//! constructions, and JOSE algorithm names in switches and registrations.
use vstd::prelude::*;
use crate::ancestry::{ancestor_frames, ancestor_frames_spec, ancestors};
use crate::callee::{lookup, spec_lookup};
use crate::extract::{ArgMap, ArgVal, ArgValue, RawMatch, RawView};
use crate::findings::SiteContext;
use crate::literals::js_quotes;
use crate::rules::Language;
use crate::sitecheck::in_strs;
use crate::sitecontext::{classify_site_context, site_chain, site_context_of};
use crate::syntax::{SyntaxNode, SyntaxTree, child_by_field, field_of, kind_is, node_wf, text_of, tree_wf};
use crate::tables::{go_alg_whitelist_list, go_alg_whitelist_strs, go_ssh_kex_const_apis, go_ssh_kex_const_table, strs_view};
use crate::text::{chars_of, owned, push_char, push_text, str_eq, string_from_chars, trim_set, trim_set_chars};
use crate::walker::views;

verus! {

// ---------------------------------------------------------------------------
// Shared pieces of the structural matchers.

/// The `k`-th named child of node `i`.
pub open spec fn nchild(ns: Seq<SyntaxNode>, i: int, k: int) -> Option<int> {
    if 0 <= k < ns[i].named_children@.len() {
        Some(ns[i].named_children@[k] as int)
    } else {
        None
    }
}

/// The `k`-th named child of node `i`.
pub fn named_child(t: &SyntaxTree, i: usize, k: usize) -> (r: Option<usize>)
    requires
        i < t.view_nodes().len(),
    ensures
        match r {
            Some(c) => nchild(t.view_nodes(), i as int, k as int) == Some(c as int) && i < c < t.view_nodes().len(),
            None => nchild(t.view_nodes(), i as int, k as int) is None,
        },
{
    proof {
        use_type_invariant(t);
        assert(node_wf(t.view_nodes(), i as int));
    }
    let n = t.node(i);
    if k < n.named_children.len() {
        Some(n.named_children[k])
    } else {
        None
    }
}

/// A site found at node `pos`, shown with `snippet`.
pub open spec fn view_at(
    ns: Seq<SyntaxNode>,
    pos: int,
    api: Seq<char>,
    args: Seq<(Seq<char>, ArgVal)>,
    symbol: Seq<char>,
    snippet: Seq<char>,
    site_context: SiteContext,
) -> RawView {
    RawView { api, args, line: ns[pos].line, offset: ns[pos].offset, symbol, snippet, site_context }
}

pub open spec fn one_arg(key: Seq<char>, value: Seq<char>) -> Seq<(Seq<char>, ArgVal)> {
    seq![(key, ArgVal::Str(value))]
}

/// A site at node `pos` with the single capture `key` = `value`.
pub fn site_match(
    t: &SyntaxTree,
    pos: usize,
    api: &str,
    key: &str,
    value: String,
    symbol: String,
    snippet: String,
    site_context: SiteContext,
) -> (r: RawMatch)
    requires
        pos < t.view_nodes().len(),
    ensures
        r@ == view_at(t.view_nodes(), pos as int, api@, one_arg(key@, value@), symbol@, snippet@, site_context),
{
    let mut args = ArgMap::new();
    let ghost v = value@;
    args.insert(owned(key), ArgValue::Str(value));
    assert(args@ =~= one_arg(key@, v));
    let n = t.node(pos);
    RawMatch { api: owned(api), args, line: n.line, offset: n.offset, symbol, snippet, site_context }
}

pub fn kind_at(t: &SyntaxTree, i: usize, k: &str) -> (r: bool)
    requires
        i < t.view_nodes().len(),
    ensures
        r == kind_is(t.view_nodes(), i as int, k@),
{
    str_eq(t.node(i).kind.as_str(), k)
}

pub fn text_is(t: &SyntaxTree, i: usize, s: &str) -> (r: bool)
    requires
        i < t.view_nodes().len(),
    ensures
        r == (text_of(t.view_nodes(), i as int) == s@),
{
    str_eq(t.node(i).text.as_str(), s)
}

pub fn node_text(t: &SyntaxTree, i: usize) -> (r: String)
    requires
        i < t.view_nodes().len(),
    ensures
        r@ == text_of(t.view_nodes(), i as int),
{
    t.node(i).text.clone()
}

/// `prefix` followed by `s`.
pub fn prefixed(prefix: &str, s: &str) -> (r: String)
    ensures
        r@ == prefix@ + s@,
{
    let mut r = owned(prefix);
    push_text(&mut r, s);
    r
}

pub fn push_view(out: &mut Vec<RawMatch>, m: RawMatch)
    ensures
        views(final(out)@) == views(old(out)@) + seq![m@],
{
    let ghost before = out@;
    let ghost mv = m@;
    out.push(m);
    assert(views(out@) =~= views(before) + seq![mv]);
}

pub fn append_views(out: &mut Vec<RawMatch>, ms: Vec<RawMatch>)
    ensures
        views(final(out)@) == views(old(out)@) + views(ms@),
{
    let ghost e0 = views(out@);
    let ghost all = views(ms@);
    let mut src = ms;
    while src.len() > 0
        invariant
            views(out@) == e0 + all.subrange(0, (all.len() - views(src@).len()) as int),
            all.subrange(all.len() - views(src@).len(), all.len() as int) == views(src@),
            views(src@).len() <= all.len(),
        decreases src.len(),
    {
        let m = src.remove(0);
        let ghost k = all.len() - views(src@).len() - 1;
        push_view(out, m);
        proof {
            assert(all.subrange(k, all.len() as int)[0] == m@);
            assert(all.subrange(0, k + 1) =~= all.subrange(0, k).push(m@));
            assert(all.subrange(k + 1, all.len() as int) =~= all.subrange(k, all.len() as int).drop_first());
        }
    }
    assert(all.subrange(0, all.len() as int) =~= all);
}

/// Go string literals: interpreted (`"..."`) or raw (`` `...` ``).
pub open spec fn go_string_kind(ns: Seq<SyntaxNode>, i: int) -> bool {
    kind_is(ns, i, "interpreted_string_literal"@) || kind_is(ns, i, "raw_string_literal"@)
}

pub open spec fn go_quotes() -> Seq<char> {
    seq!['"', '`']
}

/// A Go string literal's text without its quotes.
pub open spec fn go_literal_value(ns: Seq<SyntaxNode>, i: int) -> Seq<char> {
    trim_set(text_of(ns, i), go_quotes())
}

fn go_value(t: &SyntaxTree, i: usize) -> (r: String)
    requires
        i < t.view_nodes().len(),
    ensures
        r@ == go_literal_value(t.view_nodes(), i as int),
{
    let mut q: Vec<char> = Vec::new();
    q.push('"');
    q.push('`');
    assert(q@ =~= go_quotes());
    string_from_chars(&trim_set_chars(&chars_of(t.node(i).text.as_str()), &q))
}

// ---------------------------------------------------------------------------
// `MinVersion: tls.VersionTLS10`.

/// The `tls.<Version>` field of a `MinVersion:` keyed element.
pub open spec fn min_version_field(ns: Seq<SyntaxNode>, keyed: int) -> Option<int> {
    match (nchild(ns, keyed, 0), nchild(ns, keyed, 1)) {
        (Some(key_le), Some(value_le)) => match nchild(ns, key_le, 0) {
            Some(key_inner) => if !kind_is(ns, key_inner, "identifier"@) || text_of(ns, key_inner) != "MinVersion"@ {
                None
            } else {
                match nchild(ns, value_le, 0) {
                    Some(sel) => if !kind_is(ns, sel, "selector_expression"@) {
                        None
                    } else {
                        match (field_of(ns, sel, "operand"@), field_of(ns, sel, "field"@)) {
                            (Some(o), Some(f)) => if kind_is(ns, o, "identifier"@) && text_of(ns, o) == "tls"@ {
                                Some(f)
                            } else {
                                None
                            },
                            _ => None,
                        }
                    },
                    None => None,
                }
            },
            None => None,
        },
        _ => None,
    }
}

pub open spec fn tls_min_version_spec(ns: Seq<SyntaxNode>, keyed: int) -> Seq<RawView> {
    match min_version_field(ns, keyed) {
        Some(f) => seq![
            view_at(
                ns,
                keyed,
                "crypto/tls.Config.MinVersion"@,
                one_arg("version"@, text_of(ns, f)),
                "tls."@ + text_of(ns, f),
                text_of(ns, keyed),
                SiteContext::StructLiteral,
            ),
        ],
        None => Seq::empty(),
    }
}

fn min_version_node(t: &SyntaxTree, keyed: usize) -> (r: Option<usize>)
    requires
        keyed < t.view_nodes().len(),
    ensures
        match r {
            Some(f) => min_version_field(t.view_nodes(), keyed as int) == Some(f as int) && f < t.view_nodes().len(),
            None => min_version_field(t.view_nodes(), keyed as int) is None,
        },
{
    let key_le = match named_child(t, keyed, 0) {
        Some(x) => x,
        None => {
            return None;
        },
    };
    let value_le = match named_child(t, keyed, 1) {
        Some(x) => x,
        None => {
            return None;
        },
    };
    let key_inner = match named_child(t, key_le, 0) {
        Some(x) => x,
        None => {
            return None;
        },
    };
    if !kind_at(t, key_inner, "identifier") || !text_is(t, key_inner, "MinVersion") {
        return None;
    }
    let sel = match named_child(t, value_le, 0) {
        Some(x) => x,
        None => {
            return None;
        },
    };
    if !kind_at(t, sel, "selector_expression") {
        return None;
    }
    match (child_by_field(t, sel, "operand"), child_by_field(t, sel, "field")) {
        (Some(o), Some(f)) => if kind_at(t, o, "identifier") && text_is(t, o, "tls") {
            Some(f)
        } else {
            None
        },
        _ => None,
    }
}

/// Go `MinVersion: tls.VersionTLS10` in a TLS config literal.
pub fn match_go_tls_min_version(t: &SyntaxTree, keyed: usize, out: &mut Vec<RawMatch>)
    requires
        keyed < t.view_nodes().len(),
    ensures
        views(final(out)@) == views(old(out)@) + tls_min_version_spec(t.view_nodes(), keyed as int),
{
    match min_version_node(t, keyed) {
        Some(f) => {
            let version = node_text(t, f);
            let symbol = prefixed("tls.", version.as_str());
            let m = site_match(
                t,
                keyed,
                "crypto/tls.Config.MinVersion",
                "version",
                version,
                symbol,
                node_text(t, keyed),
                SiteContext::StructLiteral,
            );
            push_view(out, m);
        },
        None => {
            assert(views(out@) =~= views(out@) + Seq::<RawView>::empty());
        },
    }
}

// ---------------------------------------------------------------------------
// `CurvePreferences: []tls.CurveID{...}` and `KeyExchanges: []string{...}`.

/// The composite literal of a keyed element named `key`, when its value is
/// one.
pub open spec fn keyed_composite(ns: Seq<SyntaxNode>, keyed: int, key: Seq<char>) -> Option<int> {
    match (nchild(ns, keyed, 0), nchild(ns, keyed, 1)) {
        (Some(key_le), Some(value_le)) => match nchild(ns, key_le, 0) {
            Some(key_inner) => if !kind_is(ns, key_inner, "identifier"@) || text_of(ns, key_inner) != key {
                None
            } else {
                match nchild(ns, value_le, 0) {
                    Some(c) => if kind_is(ns, c, "composite_literal"@) {
                        Some(c)
                    } else {
                        None
                    },
                    None => None,
                }
            },
            None => None,
        },
        _ => None,
    }
}

/// The element type of a composite literal whose type is a slice.
pub open spec fn slice_element_type(ns: Seq<SyntaxNode>, c: int) -> Option<int> {
    match field_of(ns, c, "type"@) {
        Some(st) => if kind_is(ns, st, "slice_type"@) {
            nchild(ns, st, 0)
        } else {
            None
        },
        None => None,
    }
}

/// The `literal_value` body of a composite literal.
pub open spec fn literal_body(ns: Seq<SyntaxNode>, c: int) -> Option<int> {
    match field_of(ns, c, "body"@) {
        Some(b) => if kind_is(ns, b, "literal_value"@) {
            Some(b)
        } else {
            None
        },
        None => None,
    }
}

/// The body of a `CurvePreferences: []tls.CurveID{...}` element.
pub open spec fn curve_body(ns: Seq<SyntaxNode>, keyed: int) -> Option<int> {
    match keyed_composite(ns, keyed, "CurvePreferences"@) {
        Some(c) => match slice_element_type(ns, c) {
            Some(et) => if !kind_is(ns, et, "qualified_type"@) {
                None
            } else {
                match (field_of(ns, et, "package"@), field_of(ns, et, "name"@)) {
                    (Some(p), Some(n)) => if text_of(ns, p) == "tls"@ && text_of(ns, n) == "CurveID"@ {
                        literal_body(ns, c)
                    } else {
                        None
                    },
                    _ => None,
                }
            },
            None => None,
        },
        None => None,
    }
}

/// The curves among the children of a curve-list body, from the `k`-th;
/// `None` when a `tls.` selector lacks its operand or field.
pub open spec fn curves_from(ns: Seq<SyntaxNode>, body: int, k: int) -> Option<Seq<RawView>>
    decreases ns[body].children@.len() - k,
{
    let ch = ns[body].children@;
    if k < 0 || k >= ch.len() {
        Some(Seq::empty())
    } else {
        let e = ch[k] as int;
        let rest = curves_from(ns, body, k + 1);
        if !kind_is(ns, e, "literal_element"@) {
            rest
        } else {
            match nchild(ns, e, 0) {
                None => rest,
                Some(sel) => if !kind_is(ns, sel, "selector_expression"@) {
                    rest
                } else {
                    match (field_of(ns, sel, "operand"@), field_of(ns, sel, "field"@)) {
                        (Some(o), Some(f)) => if kind_is(ns, o, "identifier"@) && text_of(ns, o) == "tls"@ {
                            match rest {
                                Some(r) => Some(
                                    seq![
                                        view_at(
                                            ns,
                                            e,
                                            "crypto/tls.Config.CurvePreferences"@,
                                            one_arg("curve"@, text_of(ns, f)),
                                            "tls."@ + text_of(ns, f),
                                            text_of(ns, e),
                                            SiteContext::Call,
                                        ),
                                    ] + r,
                                ),
                                None => None,
                            }
                        } else {
                            rest
                        },
                        _ => None,
                    }
                },
            }
        }
    }
}

pub open spec fn curve_preferences_spec(ns: Seq<SyntaxNode>, keyed: int) -> Seq<RawView> {
    match curve_body(ns, keyed) {
        Some(b) => match curves_from(ns, b, 0) {
            Some(s) => s,
            None => Seq::empty(),
        },
        None => Seq::empty(),
    }
}

fn keyed_composite_node(t: &SyntaxTree, keyed: usize, key: &str) -> (r: Option<usize>)
    requires
        keyed < t.view_nodes().len(),
    ensures
        match r {
            Some(c) => keyed_composite(t.view_nodes(), keyed as int, key@) == Some(c as int) && c < t.view_nodes().len(),
            None => keyed_composite(t.view_nodes(), keyed as int, key@) is None,
        },
{
    let key_le = match named_child(t, keyed, 0) {
        Some(x) => x,
        None => {
            return None;
        },
    };
    let value_le = match named_child(t, keyed, 1) {
        Some(x) => x,
        None => {
            return None;
        },
    };
    let key_inner = match named_child(t, key_le, 0) {
        Some(x) => x,
        None => {
            return None;
        },
    };
    if !kind_at(t, key_inner, "identifier") || !text_is(t, key_inner, key) {
        return None;
    }
    match named_child(t, value_le, 0) {
        Some(c) => if kind_at(t, c, "composite_literal") {
            Some(c)
        } else {
            None
        },
        None => None,
    }
}

fn slice_element_node(t: &SyntaxTree, c: usize) -> (r: Option<usize>)
    requires
        c < t.view_nodes().len(),
    ensures
        match r {
            Some(e) => slice_element_type(t.view_nodes(), c as int) == Some(e as int) && e < t.view_nodes().len(),
            None => slice_element_type(t.view_nodes(), c as int) is None,
        },
{
    match child_by_field(t, c, "type") {
        Some(st) => if kind_at(t, st, "slice_type") {
            named_child(t, st, 0)
        } else {
            None
        },
        None => None,
    }
}

fn literal_body_node(t: &SyntaxTree, c: usize) -> (r: Option<usize>)
    requires
        c < t.view_nodes().len(),
    ensures
        match r {
            Some(b) => literal_body(t.view_nodes(), c as int) == Some(b as int) && b < t.view_nodes().len(),
            None => literal_body(t.view_nodes(), c as int) is None,
        },
{
    match child_by_field(t, c, "body") {
        Some(b) => if kind_at(t, b, "literal_value") {
            Some(b)
        } else {
            None
        },
        None => None,
    }
}

fn curve_body_node(t: &SyntaxTree, keyed: usize) -> (r: Option<usize>)
    requires
        keyed < t.view_nodes().len(),
    ensures
        match r {
            Some(b) => curve_body(t.view_nodes(), keyed as int) == Some(b as int) && b < t.view_nodes().len(),
            None => curve_body(t.view_nodes(), keyed as int) is None,
        },
{
    let c = match keyed_composite_node(t, keyed, "CurvePreferences") {
        Some(c) => c,
        None => {
            return None;
        },
    };
    let et = match slice_element_node(t, c) {
        Some(e) => e,
        None => {
            return None;
        },
    };
    if !kind_at(t, et, "qualified_type") {
        return None;
    }
    match (child_by_field(t, et, "package"), child_by_field(t, et, "name")) {
        (Some(p), Some(n)) => if text_is(t, p, "tls") && text_is(t, n, "CurveID") {
            literal_body_node(t, c)
        } else {
            None
        },
        _ => None,
    }
}

/// Go `CurvePreferences: []tls.CurveID{tls.X25519, ...}`: one site per
/// `tls.<Curve>` element.
pub fn match_go_curve_preferences(t: &SyntaxTree, keyed: usize, out: &mut Vec<RawMatch>)
    requires
        keyed < t.view_nodes().len(),
    ensures
        views(final(out)@) == views(old(out)@) + curve_preferences_spec(t.view_nodes(), keyed as int),
{
    proof {
        use_type_invariant(t);
    }
    let ghost ns = t.view_nodes();
    let body = match curve_body_node(t, keyed) {
        Some(b) => b,
        None => {
            assert(views(out@) =~= views(out@) + Seq::<RawView>::empty());
            return;
        },
    };
    proof {
        assert(node_wf(ns, body as int));
    }
    let node = t.node(body);
    let mut found: Vec<RawMatch> = Vec::new();
    let mut k: usize = 0;
    while k < node.children.len()
        invariant
            *node == ns[body as int],
            ns == t.view_nodes(),
            body < ns.len(),
            node_wf(ns, body as int),
            k <= node.children@.len(),
            curve_body(ns, keyed as int) == Some(body as int),
            curves_from(ns, body as int, 0) == match curves_from(ns, body as int, k as int) {
                Some(r) => Some(views(found@) + r),
                None => None,
            },
        decreases node.children.len() - k,
    {
        let e = node.children[k];
        let ghost before = views(found@);
        if kind_at(t, e, "literal_element") {
            match named_child(t, e, 0) {
                None => {},
                Some(sel) => {
                    if kind_at(t, sel, "selector_expression") {
                        match (child_by_field(t, sel, "operand"), child_by_field(t, sel, "field")) {
                            (Some(o), Some(f)) => {
                                if kind_at(t, o, "identifier") && text_is(t, o, "tls") {
                                    let curve = node_text(t, f);
                                    let symbol = prefixed("tls.", curve.as_str());
                                    let m = site_match(
                                        t,
                                        e,
                                        "crypto/tls.Config.CurvePreferences",
                                        "curve",
                                        curve,
                                        symbol,
                                        node_text(t, e),
                                        SiteContext::Call,
                                    );
                                    push_view(&mut found, m);
                                    proof {
                                        let v = seq![views(found@).last()];
                                        assert(views(found@) =~= before + v);
                                        match curves_from(ns, body as int, k + 1) {
                                            Some(r) => {
                                                assert(before + (v + r) =~= views(found@) + r);
                                            },
                                            None => {},
                                        }
                                    }
                                }
                            },
                            _ => {
                                assert(curves_from(ns, body as int, k as int) is None);
                                assert(curve_preferences_spec(ns, keyed as int) =~= Seq::<RawView>::empty());
                                assert(views(out@) =~= views(out@) + Seq::<RawView>::empty());
                                return;
                            },
                        }
                    }
                },
            }
        }
        k = k + 1;
    }
    assert(views(found@) + Seq::<RawView>::empty() =~= views(found@));
    append_views(out, found);
}

/// The body of a `KeyExchanges: []string{...}` element.
pub open spec fn kex_body(ns: Seq<SyntaxNode>, keyed: int) -> Option<int> {
    match keyed_composite(ns, keyed, "KeyExchanges"@) {
        Some(c) => match slice_element_type(ns, c) {
            Some(et) => if kind_is(ns, et, "type_identifier"@) && text_of(ns, et) == "string"@ {
                literal_body(ns, c)
            } else {
                None
            },
            None => None,
        },
        None => None,
    }
}

/// The wire name an SSH key-exchange element names: a string literal's
/// text, or the wire string of an `ssh.KeyExchange*` constant.
pub open spec fn kex_name(ns: Seq<SyntaxNode>, inner: int) -> Option<Seq<char>> {
    if go_string_kind(ns, inner) {
        Some(go_literal_value(ns, inner))
    } else if kind_is(ns, inner, "selector_expression"@) {
        match (field_of(ns, inner, "operand"@), field_of(ns, inner, "field"@)) {
            (Some(o), Some(f)) => if kind_is(ns, o, "identifier"@) && text_of(ns, o) == "ssh"@ {
                spec_lookup(go_ssh_kex_const_table(), text_of(ns, f))
            } else {
                None
            },
            _ => None,
        }
    } else {
        None
    }
}

/// The key exchanges among the children of a key-exchange body, from the
/// `k`-th.
pub open spec fn kex_from(ns: Seq<SyntaxNode>, body: int, k: int) -> Seq<RawView>
    decreases ns[body].children@.len() - k,
{
    let ch = ns[body].children@;
    if k < 0 || k >= ch.len() {
        Seq::empty()
    } else {
        let e = ch[k] as int;
        let here = if kind_is(ns, e, "literal_element"@) {
            match nchild(ns, e, 0) {
                Some(inner) => match kex_name(ns, inner) {
                    Some(kex) => seq![
                        view_at(
                            ns,
                            e,
                            "golang.org/x/crypto/ssh.Config.KeyExchanges"@,
                            one_arg("kex"@, kex),
                            kex,
                            text_of(ns, e),
                            SiteContext::StructLiteral,
                        ),
                    ],
                    None => Seq::empty(),
                },
                None => Seq::empty(),
            }
        } else {
            Seq::empty()
        };
        here + kex_from(ns, body, k + 1)
    }
}

pub open spec fn ssh_key_exchanges_spec(ns: Seq<SyntaxNode>, keyed: int) -> Seq<RawView> {
    match kex_body(ns, keyed) {
        Some(b) => kex_from(ns, b, 0),
        None => Seq::empty(),
    }
}

fn kex_body_node(t: &SyntaxTree, keyed: usize) -> (r: Option<usize>)
    requires
        keyed < t.view_nodes().len(),
    ensures
        match r {
            Some(b) => kex_body(t.view_nodes(), keyed as int) == Some(b as int) && b < t.view_nodes().len(),
            None => kex_body(t.view_nodes(), keyed as int) is None,
        },
{
    let c = match keyed_composite_node(t, keyed, "KeyExchanges") {
        Some(c) => c,
        None => {
            return None;
        },
    };
    let et = match slice_element_node(t, c) {
        Some(e) => e,
        None => {
            return None;
        },
    };
    if kind_at(t, et, "type_identifier") && text_is(t, et, "string") {
        literal_body_node(t, c)
    } else {
        None
    }
}

fn kex_name_of(t: &SyntaxTree, inner: usize) -> (r: Option<String>)
    requires
        inner < t.view_nodes().len(),
    ensures
        match r {
            Some(s) => kex_name(t.view_nodes(), inner as int) == Some(s@),
            None => kex_name(t.view_nodes(), inner as int) is None,
        },
{
    if kind_at(t, inner, "interpreted_string_literal") || kind_at(t, inner, "raw_string_literal") {
        Some(go_value(t, inner))
    } else if kind_at(t, inner, "selector_expression") {
        match (child_by_field(t, inner, "operand"), child_by_field(t, inner, "field")) {
            (Some(o), Some(f)) => if kind_at(t, o, "identifier") && text_is(t, o, "ssh") {
                let table = go_ssh_kex_const_apis();
                match lookup(&table, t.node(f).text.as_str()) {
                    Some(w) => Some(owned(w)),
                    None => None,
                }
            } else {
                None
            },
            _ => None,
        }
    } else {
        None
    }
}

/// Go `KeyExchanges: []string{ssh.KeyExchangeMLKEM768X25519, "..."}` in
/// an SSH config literal: one site per recognised key exchange.
pub fn match_go_ssh_key_exchanges(t: &SyntaxTree, keyed: usize, out: &mut Vec<RawMatch>)
    requires
        keyed < t.view_nodes().len(),
    ensures
        views(final(out)@) == views(old(out)@) + ssh_key_exchanges_spec(t.view_nodes(), keyed as int),
{
    proof {
        use_type_invariant(t);
    }
    let ghost ns = t.view_nodes();
    let ghost e0 = views(out@);
    let body = match kex_body_node(t, keyed) {
        Some(b) => b,
        None => {
            assert(views(out@) =~= views(out@) + Seq::<RawView>::empty());
            return;
        },
    };
    proof {
        assert(node_wf(ns, body as int));
    }
    let node = t.node(body);
    let mut k: usize = 0;
    while k < node.children.len()
        invariant
            *node == ns[body as int],
            ns == t.view_nodes(),
            body < ns.len(),
            node_wf(ns, body as int),
            k <= node.children@.len(),
            e0 + kex_from(ns, body as int, 0) == views(out@) + kex_from(ns, body as int, k as int),
        decreases node.children.len() - k,
    {
        let e = node.children[k];
        let ghost before = views(out@);
        if kind_at(t, e, "literal_element") {
            match named_child(t, e, 0) {
                Some(inner) => match kex_name_of(t, inner) {
                    Some(kex) => {
                        let symbol = kex.clone();
                        let m = site_match(
                            t,
                            e,
                            "golang.org/x/crypto/ssh.Config.KeyExchanges",
                            "kex",
                            kex,
                            symbol,
                            node_text(t, e),
                            SiteContext::StructLiteral,
                        );
                        push_view(out, m);
                    },
                    None => {},
                },
                None => {},
            }
        }
        assert(before + kex_from(ns, body as int, k as int) =~= views(out@) + kex_from(ns, body as int, k + 1));
        k = k + 1;
    }
    assert(views(out@) + kex_from(ns, body as int, k as int) =~= views(out@));
}

// ---------------------------------------------------------------------------
// `oqs.KeyEncapsulation{}` / `oqs.Signature{}`.

pub open spec fn oqs_type(ns: Seq<SyntaxNode>, lit: int) -> Option<(Seq<char>, Seq<char>)> {
    match field_of(ns, lit, "type"@) {
        Some(ty) => if !kind_is(ns, ty, "qualified_type"@) {
            None
        } else {
            match field_of(ns, ty, "package"@) {
                Some(p) => if text_of(ns, p) != "oqs"@ {
                    None
                } else {
                    match field_of(ns, ty, "name"@) {
                        Some(n) => if text_of(ns, n) == "KeyEncapsulation"@ {
                            Some(("liboqs-go/oqs.KeyEncapsulation"@, text_of(ns, n)))
                        } else if text_of(ns, n) == "Signature"@ {
                            Some(("liboqs-go/oqs.Signature"@, text_of(ns, n)))
                        } else {
                            None
                        },
                        None => None,
                    }
                },
                None => None,
            }
        },
        None => None,
    }
}

pub open spec fn oqs_construction_spec(ns: Seq<SyntaxNode>, lit: int) -> Seq<RawView> {
    match oqs_type(ns, lit) {
        Some((api, name)) => seq![
            view_at(ns, lit, api, Seq::empty(), "oqs."@ + name + "{}"@, text_of(ns, lit), SiteContext::Call),
        ],
        None => Seq::empty(),
    }
}

/// Go `oqs.KeyEncapsulation{}` / `oqs.Signature{}`.
pub fn match_go_oqs_construction(t: &SyntaxTree, lit: usize, out: &mut Vec<RawMatch>)
    requires
        lit < t.view_nodes().len(),
    ensures
        views(final(out)@) == views(old(out)@) + oqs_construction_spec(t.view_nodes(), lit as int),
{
    let ghost e0 = views(out@);
    assert(e0 + Seq::<RawView>::empty() =~= e0);
    let ty = match child_by_field(t, lit, "type") {
        Some(x) => x,
        None => {
            return;
        },
    };
    if !kind_at(t, ty, "qualified_type") {
        return;
    }
    let p = match child_by_field(t, ty, "package") {
        Some(x) => x,
        None => {
            return;
        },
    };
    if !text_is(t, p, "oqs") {
        return;
    }
    let n = match child_by_field(t, ty, "name") {
        Some(x) => x,
        None => {
            return;
        },
    };
    let api = if text_is(t, n, "KeyEncapsulation") {
        "liboqs-go/oqs.KeyEncapsulation"
    } else if text_is(t, n, "Signature") {
        "liboqs-go/oqs.Signature"
    } else {
        return;
    };
    let mut symbol = prefixed("oqs.", t.node(n).text.as_str());
    push_text(&mut symbol, "{}");
    let ln = t.node(lit);
    let m = RawMatch {
        api: owned(api),
        args: ArgMap::new(),
        line: ln.line,
        offset: ln.offset,
        symbol,
        snippet: ln.text.clone(),
        site_context: SiteContext::Call,
    };
    push_view(out, m);
}

// ---------------------------------------------------------------------------
// JOSE algorithm names in switches and registrations.

pub open spec fn alg_sibling_scopes() -> Seq<Seq<char>> {
    seq![
        "const_declaration"@, "var_declaration"@, "composite_literal"@, "expression_switch_statement"@,
        "type_switch_statement"@, "block"@,
    ]
}

/// A JOSE algorithm name other than `none`, written as a string literal.
pub open spec fn alg_witness(ns: Seq<SyntaxNode>, i: int) -> bool {
    go_string_kind(ns, i) && go_literal_value(ns, i) != "none"@ && go_alg_whitelist_list().contains(
        go_literal_value(ns, i),
    )
}

/// Some node among `i` (when `k < 0`) and the named subtrees of its named
/// children from the `k`-th is a witness.
pub open spec fn witness_from(ns: Seq<SyntaxNode>, i: int, k: int) -> bool
    decreases ns.len() - i, ns[i].named_children@.len() - k,
{
    if i < 0 || i >= ns.len() {
        false
    } else if k < 0 {
        alg_witness(ns, i) || witness_from(ns, i, 0)
    } else if k >= ns[i].named_children@.len() {
        false
    } else {
        let c = ns[i].named_children@[k] as int;
        (i < c < ns.len() && witness_from(ns, c, -1)) || witness_from(ns, i, k + 1)
    }
}

/// The nearest of `i` and its ancestors that bounds a group of sibling
/// declarations.
pub open spec fn sibling_scope(ns: Seq<SyntaxNode>, i: int) -> Option<int> {
    if alg_sibling_scopes().contains(ns[i].kind@) {
        Some(i)
    } else {
        first_of_kinds(ns, ancestors(ns, i), alg_sibling_scopes(), 0)
    }
}

/// The first of `anc` from `k` whose kind is one of `kinds`.
pub open spec fn first_of_kinds(ns: Seq<SyntaxNode>, anc: Seq<int>, kinds: Seq<Seq<char>>, k: int) -> Option<int>
    decreases anc.len() - k,
{
    if k < 0 || k >= anc.len() {
        None
    } else if kinds.contains(ns[anc[k]].kind@) {
        Some(anc[k])
    } else {
        first_of_kinds(ns, anc, kinds, k + 1)
    }
}

/// A `none` is a JOSE name only when another JOSE name is declared in the
/// same group.
pub open spec fn corroborated(ns: Seq<SyntaxNode>, i: int) -> bool {
    match sibling_scope(ns, i) {
        Some(s) => witness_from(ns, s, -1),
        None => false,
    }
}

fn has_witness(t: &SyntaxTree, i: usize, names: &Vec<&'static str>) -> (r: bool)
    requires
        i < t.view_nodes().len(),
        strs_view(names@) == go_alg_whitelist_list(),
    ensures
        r == witness_from(t.view_nodes(), i as int, -1),
    decreases t.view_nodes().len() - i,
{
    proof {
        use_type_invariant(t);
        assert(node_wf(t.view_nodes(), i as int));
    }
    let ghost ns = t.view_nodes();
    if kind_at(t, i, "interpreted_string_literal") || kind_at(t, i, "raw_string_literal") {
        let v = go_value(t, i);
        if !str_eq(v.as_str(), "none") && in_strs(&chars_of(v.as_str()), names) {
            return true;
        }
    }
    let node = t.node(i);
    let mut k: usize = 0;
    while k < node.named_children.len()
        invariant
            *node == ns[i as int],
            ns == t.view_nodes(),
            i < ns.len(),
            node_wf(ns, i as int),
            strs_view(names@) == go_alg_whitelist_list(),
            !alg_witness(ns, i as int),
            k <= node.named_children@.len(),
            witness_from(ns, i as int, -1) == witness_from(ns, i as int, k as int),
        decreases node.named_children.len() - k,
    {
        if has_witness(t, node.named_children[k], names) {
            return true;
        }
        k = k + 1;
    }
    false
}

fn kind_among(t: &SyntaxTree, i: usize, kinds: &Vec<&'static str>) -> (r: bool)
    requires
        i < t.view_nodes().len(),
    ensures
        r == strs_view(kinds@).contains(t.view_nodes()[i as int].kind@),
{
    in_strs(&chars_of(t.node(i).kind.as_str()), kinds)
}

fn is_corroborated(t: &SyntaxTree, i: usize, names: &Vec<&'static str>) -> (r: bool)
    requires
        i < t.view_nodes().len(),
        strs_view(names@) == go_alg_whitelist_list(),
    ensures
        r == corroborated(t.view_nodes(), i as int),
{
    proof {
        use_type_invariant(t);
    }
    let ghost ns = t.view_nodes();
    let scopes = vec![
        "const_declaration",
        "var_declaration",
        "composite_literal",
        "expression_switch_statement",
        "type_switch_statement",
        "block",
    ];
    assert(strs_view(scopes@) =~= alg_sibling_scopes());
    if kind_among(t, i, &scopes) {
        return has_witness(t, i, names);
    }
    let ghost anc = ancestors(ns, i as int);
    let ghost mut k: int = 0;
    let mut cur: usize = i;
    loop
        invariant
            ns == t.view_nodes(),
            tree_wf(ns),
            cur < ns.len(),
            0 <= k <= anc.len(),
            anc == ancestors(ns, i as int),
            ancestors(ns, cur as int) == anc.subrange(k, anc.len() as int),
            first_of_kinds(ns, anc, alg_sibling_scopes(), 0) == first_of_kinds(ns, anc, alg_sibling_scopes(), k),
            sibling_scope(ns, i as int) == first_of_kinds(ns, anc, alg_sibling_scopes(), 0),
            strs_view(scopes@) == alg_sibling_scopes(),
            strs_view(names@) == go_alg_whitelist_list(),
        decreases cur,
    {
        proof {
            assert(node_wf(ns, cur as int));
        }
        let p = match t.node(cur).parent {
            Some(p) => p,
            None => {
                return false;
            },
        };
        proof {
            let s = ancestors(ns, cur as int);
            assert(s == seq![p as int] + ancestors(ns, p as int));
            assert(s[0] == anc[k]);
            assert(anc.subrange(k + 1, anc.len() as int) =~= s.drop_first());
        }
        if kind_among(t, p, &scopes) {
            return has_witness(t, p, names);
        }
        cur = p;
        proof {
            k = k + 1;
        }
    }
}

/// One `case "<alg>":` of a switch whose value is a recognised JOSE name.
pub open spec fn switch_case_view(ns: Seq<SyntaxNode>, c: int) -> Option<Option<RawView>> {
    if !kind_is(ns, c, "expression_case"@) {
        Some(None)
    } else {
        match field_of(ns, c, "value"@) {
            None => None,
            Some(vl) => match nchild(ns, vl, 0) {
                None => Some(None),
                Some(e) => if !go_string_kind(ns, e) {
                    Some(None)
                } else {
                    let value = go_literal_value(ns, e);
                    if !go_alg_whitelist_list().contains(value) || (value == "none"@ && !corroborated(ns, c)) {
                        Some(None)
                    } else {
                        Some(
                            Some(
                                view_at(
                                    ns,
                                    c,
                                    "go.alg-switch."@ + value,
                                    one_arg("member"@, value),
                                    value,
                                    text_of(ns, c),
                                    SiteContext::Call,
                                ),
                            ),
                        )
                    }
                },
            },
        }
    }
}

/// The recognised cases of a switch, from its `k`-th child; `None` when a
/// case lacks its value.
pub open spec fn switch_cases_from(ns: Seq<SyntaxNode>, sw: int, k: int) -> Option<Seq<RawView>>
    decreases ns[sw].children@.len() - k,
{
    let ch = ns[sw].children@;
    if k < 0 || k >= ch.len() {
        Some(Seq::empty())
    } else {
        match (switch_case_view(ns, ch[k] as int), switch_cases_from(ns, sw, k + 1)) {
            (Some(here), Some(rest)) => Some(
                match here {
                    Some(v) => seq![v] + rest,
                    None => rest,
                },
            ),
            _ => None,
        }
    }
}

pub open spec fn alg_switch_spec(ns: Seq<SyntaxNode>, sw: int) -> Seq<RawView> {
    match switch_cases_from(ns, sw, 0) {
        Some(s) => s,
        None => Seq::empty(),
    }
}

/// Go `switch alg { case "RS256": ... }` over JOSE algorithm names: one
/// site per recognised case.
pub fn match_go_alg_switch(t: &SyntaxTree, sw: usize, out: &mut Vec<RawMatch>)
    requires
        sw < t.view_nodes().len(),
    ensures
        views(final(out)@) == views(old(out)@) + alg_switch_spec(t.view_nodes(), sw as int),
{
    proof {
        use_type_invariant(t);
        assert(node_wf(t.view_nodes(), sw as int));
    }
    let ghost ns = t.view_nodes();
    let names = go_alg_whitelist_strs();
    let node = t.node(sw);
    let mut found: Vec<RawMatch> = Vec::new();
    let mut k: usize = 0;
    while k < node.children.len()
        invariant
            *node == ns[sw as int],
            ns == t.view_nodes(),
            sw < ns.len(),
            node_wf(ns, sw as int),
            strs_view(names@) == go_alg_whitelist_list(),
            k <= node.children@.len(),
            switch_cases_from(ns, sw as int, 0) == match switch_cases_from(ns, sw as int, k as int) {
                Some(r) => Some(views(found@) + r),
                None => None,
            },
        decreases node.children.len() - k,
    {
        let c = node.children[k];
        let ghost before = views(found@);
        if kind_at(t, c, "expression_case") {
            let vl = match child_by_field(t, c, "value") {
                Some(x) => x,
                None => {
                    assert(views(out@) =~= views(out@) + Seq::<RawView>::empty());
                    return;
                },
            };
            match named_child(t, vl, 0) {
                None => {},
                Some(e) => {
                    if kind_at(t, e, "interpreted_string_literal") || kind_at(t, e, "raw_string_literal") {
                        let value = go_value(t, e);
                        let listed = in_strs(&chars_of(value.as_str()), &names);
                        let keep = listed && (!str_eq(value.as_str(), "none") || is_corroborated(t, c, &names));
                        if keep {
                            let api = prefixed("go.alg-switch.", value.as_str());
                            let symbol = value.clone();
                            let m = site_match(
                                t,
                                c,
                                api.as_str(),
                                "member",
                                value,
                                symbol,
                                node_text(t, c),
                                SiteContext::Call,
                            );
                            push_view(&mut found, m);
                        }
                    }
                },
            }
        }
        proof {
            match switch_cases_from(ns, sw as int, k + 1) {
                Some(r) => {
                    match switch_case_view(ns, c as int) {
                        Some(Some(v)) => {
                            assert(views(found@) =~= before + seq![v]);
                            assert(before + (seq![v] + r) =~= views(found@) + r);
                        },
                        _ => {
                            assert(views(found@) =~= before);
                        },
                    }
                },
                None => {},
            }
        }
        k = k + 1;
    }
    assert(views(found@) + Seq::<RawView>::empty() =~= views(found@));
    append_views(out, found);
}

pub open spec fn case_kinds() -> Seq<Seq<char>> {
    seq!["expression_case"@, "type_case"@, "default_case"@]
}

/// Some ancestor from the `k`-th, up to the first `source_file`, is a
/// switch case.
pub open spec fn inside_case(ns: Seq<SyntaxNode>, anc: Seq<int>, k: int) -> bool
    decreases anc.len() - k,
{
    if k < 0 || k >= anc.len() {
        false
    } else if case_kinds().contains(ns[anc[k]].kind@) {
        true
    } else if kind_is(ns, anc[k], "source_file"@) {
        false
    } else {
        inside_case(ns, anc, k + 1)
    }
}

pub open spec fn registration_parent_kinds() -> Seq<Seq<char>> {
    seq![
        "literal_element"@, "literal_value"@, "argument_list"@, "const_spec"@, "var_spec"@, "expression_list"@,
        "keyed_element"@, "element"@,
    ]
}

/// A JOSE algorithm name registered as a string literal.
pub open spec fn alg_string_literal_spec(ns: Seq<SyntaxNode>, lit: int) -> Seq<RawView> {
    let value = go_literal_value(ns, lit);
    if !go_alg_whitelist_list().contains(value) || inside_case(ns, ancestors(ns, lit), 0) {
        Seq::empty()
    } else {
        match ns[lit].parent {
            None => Seq::empty(),
            Some(p) => if !registration_parent_kinds().contains(ns[p as int].kind@) || (value == "none"@
                && !corroborated(ns, lit)) {
                Seq::empty()
            } else {
                seq![
                    view_at(
                        ns,
                        lit,
                        "go.alg-register."@ + value,
                        one_arg("member"@, value),
                        value,
                        text_of(ns, lit),
                        site_context_of(site_chain(ancestor_frames_spec(ns, lit)), Language::Go),
                    ),
                ]
            },
        }
    }
}

fn in_case(t: &SyntaxTree, lit: usize) -> (r: bool)
    requires
        lit < t.view_nodes().len(),
    ensures
        r == inside_case(t.view_nodes(), ancestors(t.view_nodes(), lit as int), 0),
{
    proof {
        use_type_invariant(t);
    }
    let ghost ns = t.view_nodes();
    let kinds = vec!["expression_case", "type_case", "default_case"];
    assert(strs_view(kinds@) =~= case_kinds());
    let ghost anc = ancestors(ns, lit as int);
    let ghost mut k: int = 0;
    let mut cur: usize = lit;
    loop
        invariant
            ns == t.view_nodes(),
            tree_wf(ns),
            cur < ns.len(),
            0 <= k <= anc.len(),
            anc == ancestors(ns, lit as int),
            ancestors(ns, cur as int) == anc.subrange(k, anc.len() as int),
            inside_case(ns, anc, 0) == inside_case(ns, anc, k),
            strs_view(kinds@) == case_kinds(),
        decreases cur,
    {
        proof {
            assert(node_wf(ns, cur as int));
        }
        let p = match t.node(cur).parent {
            Some(p) => p,
            None => {
                return false;
            },
        };
        proof {
            let s = ancestors(ns, cur as int);
            assert(s == seq![p as int] + ancestors(ns, p as int));
            assert(s[0] == anc[k]);
            assert(anc.subrange(k + 1, anc.len() as int) =~= s.drop_first());
        }
        if kind_among(t, p, &kinds) {
            return true;
        }
        if kind_at(t, p, "source_file") {
            return false;
        }
        cur = p;
        proof {
            k = k + 1;
        }
    }
}

/// A Go JOSE algorithm name written as a string literal in a registration
/// position: a composite-literal element, a call argument, a constant or
/// variable declaration, an assignment or a keyed element.
pub fn match_go_alg_string_literal(t: &SyntaxTree, lit: usize, out: &mut Vec<RawMatch>)
    requires
        lit < t.view_nodes().len(),
    ensures
        views(final(out)@) == views(old(out)@) + alg_string_literal_spec(t.view_nodes(), lit as int),
{
    proof {
        use_type_invariant(t);
        assert(node_wf(t.view_nodes(), lit as int));
    }
    let ghost e0 = views(out@);
    assert(e0 + Seq::<RawView>::empty() =~= e0);
    let names = go_alg_whitelist_strs();
    let value = go_value(t, lit);
    if !in_strs(&chars_of(value.as_str()), &names) || in_case(t, lit) {
        return;
    }
    let p = match t.node(lit).parent {
        Some(p) => p,
        None => {
            return;
        },
    };
    let parents = vec![
        "literal_element",
        "literal_value",
        "argument_list",
        "const_spec",
        "var_spec",
        "expression_list",
        "keyed_element",
        "element",
    ];
    assert(strs_view(parents@) =~= registration_parent_kinds());
    if !kind_among(t, p, &parents) {
        return;
    }
    if str_eq(value.as_str(), "none") && !is_corroborated(t, lit, &names) {
        return;
    }
    let api = prefixed("go.alg-register.", value.as_str());
    let symbol = value.clone();
    let ctx = classify_site_context(&ancestor_frames(t, lit), Language::Go);
    let m = site_match(t, lit, api.as_str(), "member", value, symbol, node_text(t, lit), ctx);
    push_view(out, m);
}

} // verus!
