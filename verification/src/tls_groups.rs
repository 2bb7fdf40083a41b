//! TLS key-exchange group lists written in Java, C and Rust, and the
//! OpenMLS / rustls post-quantum constants: sites recognised by their shape.
use vstd::prelude::*;
use crate::extract::{ArgMap, ArgVal, ArgValue, RawMatch, RawView, first_key_index};
use crate::findings::SiteContext;
use crate::go_structural::{
    append_views, kind_at, named_child, nchild, node_text, one_arg, prefixed, push_view, site_match, text_is,
    view_at,
};
use crate::literals::{js_quotes, unquote_js};
use crate::split::{split_chars, split_on_chars};
use crate::syntax::{
    SyntaxNode, SyntaxTree, child_by_field, field_of, kind_is, node_wf, nth_real, nth_real_arg, text_of, tree_wf,
};
use crate::text::{
    chars_lower, chars_of, contains_seq, lower_seq, one_char, owned, push_char, push_text, str_contains, str_eq,
    string_from_chars, trim_chars, trim_set, trim_start_set, trim_start_set_chars, trim_ws, two_chars,
};
use crate::walker::views;

verus! {

/// A string literal's text without its quotes.
pub open spec fn literal_value(ns: Seq<SyntaxNode>, i: int) -> Seq<char> {
    trim_set(text_of(ns, i), js_quotes())
}

// ---------------------------------------------------------------------------
// Java `sslParams.setNamedGroups(new String[]{...})`.

/// The first named child of `i`, from the `k`-th, of kind `kind`.
pub open spec fn first_named_of_kind(ns: Seq<SyntaxNode>, i: int, kind: Seq<char>, k: int) -> Option<int>
    decreases ns[i].named_children@.len() - k,
{
    let ch = ns[i].named_children@;
    if k < 0 || k >= ch.len() {
        None
    } else if kind_is(ns, ch[k] as int, kind) {
        Some(ch[k] as int)
    } else {
        first_named_of_kind(ns, i, kind, k + 1)
    }
}

/// The array initializer of an `array_creation_expression`.
pub open spec fn array_initializer(ns: Seq<SyntaxNode>, arr: int) -> Option<int> {
    if !kind_is(ns, arr, "array_creation_expression"@) {
        None
    } else {
        match field_of(ns, arr, "value"@) {
            Some(v) => if kind_is(ns, v, "array_initializer"@) {
                Some(v)
            } else {
                None
            },
            None => None,
        }
    }
}

/// The initializer a `setNamedGroups(...)` call passes.
pub open spec fn named_groups_initializer(ns: Seq<SyntaxNode>, call: int) -> Option<int> {
    match field_of(ns, call, "name"@) {
        Some(n) => if text_of(ns, n) != "setNamedGroups"@ {
            None
        } else {
            match field_of(ns, call, "arguments"@) {
                Some(a) => match first_named_of_kind(ns, a, "array_creation_expression"@, 0) {
                    Some(arr) => array_initializer(ns, arr),
                    None => None,
                },
                None => None,
            }
        },
        None => None,
    }
}

/// The string-literal groups among the children of `init`, from the
/// `k`-th.
pub open spec fn named_groups_from(ns: Seq<SyntaxNode>, init: int, k: int) -> Seq<RawView>
    decreases ns[init].children@.len() - k,
{
    let ch = ns[init].children@;
    if k < 0 || k >= ch.len() {
        Seq::empty()
    } else {
        let e = ch[k] as int;
        let here = if kind_is(ns, e, "string_literal"@) {
            let g = literal_value(ns, e);
            seq![
                view_at(
                    ns,
                    e,
                    "javax.net.ssl.SSLParameters.setNamedGroups"@,
                    one_arg("group"@, g),
                    "setNamedGroups("@ + g + ")"@,
                    text_of(ns, e),
                    SiteContext::Call,
                ),
            ]
        } else {
            Seq::empty()
        };
        here + named_groups_from(ns, init, k + 1)
    }
}

pub open spec fn set_named_groups_spec(ns: Seq<SyntaxNode>, call: int) -> Seq<RawView> {
    match named_groups_initializer(ns, call) {
        Some(init) => named_groups_from(ns, init, 0),
        None => Seq::empty(),
    }
}

fn first_named_kind(t: &SyntaxTree, i: usize, kind: &str) -> (r: Option<usize>)
    requires
        i < t.view_nodes().len(),
    ensures
        match r {
            Some(c) => first_named_of_kind(t.view_nodes(), i as int, kind@, 0) == Some(c as int) && c < t.view_nodes().len(),
            None => first_named_of_kind(t.view_nodes(), i as int, kind@, 0) is None,
        },
{
    proof {
        use_type_invariant(t);
        assert(node_wf(t.view_nodes(), i as int));
    }
    let ghost ns = t.view_nodes();
    let node = t.node(i);
    let mut k: usize = 0;
    while k < node.named_children.len()
        invariant
            *node == ns[i as int],
            ns == t.view_nodes(),
            i < ns.len(),
            node_wf(ns, i as int),
            k <= node.named_children@.len(),
            first_named_of_kind(ns, i as int, kind@, 0) == first_named_of_kind(ns, i as int, kind@, k as int),
        decreases node.named_children.len() - k,
    {
        let c = node.named_children[k];
        if kind_at(t, c, kind) {
            return Some(c);
        }
        k = k + 1;
    }
    None
}

fn array_initializer_node(t: &SyntaxTree, arr: usize) -> (r: Option<usize>)
    requires
        arr < t.view_nodes().len(),
    ensures
        match r {
            Some(v) => array_initializer(t.view_nodes(), arr as int) == Some(v as int) && v < t.view_nodes().len(),
            None => array_initializer(t.view_nodes(), arr as int) is None,
        },
{
    if !kind_at(t, arr, "array_creation_expression") {
        return None;
    }
    match child_by_field(t, arr, "value") {
        Some(v) => if kind_at(t, v, "array_initializer") {
            Some(v)
        } else {
            None
        },
        None => None,
    }
}

/// Java `sslParams.setNamedGroups(new String[]{"x25519", ...})`: one site
/// per string-literal group.
pub fn match_java_set_named_groups(t: &SyntaxTree, call: usize, out: &mut Vec<RawMatch>)
    requires
        call < t.view_nodes().len(),
    ensures
        views(final(out)@) == views(old(out)@) + set_named_groups_spec(t.view_nodes(), call as int),
{
    proof {
        use_type_invariant(t);
    }
    let ghost ns = t.view_nodes();
    let ghost e0 = views(out@);
    assert(e0 + Seq::<RawView>::empty() =~= e0);
    let n = match child_by_field(t, call, "name") {
        Some(x) => x,
        None => {
            return;
        },
    };
    if !text_is(t, n, "setNamedGroups") {
        return;
    }
    let a = match child_by_field(t, call, "arguments") {
        Some(x) => x,
        None => {
            return;
        },
    };
    let arr = match first_named_kind(t, a, "array_creation_expression") {
        Some(x) => x,
        None => {
            return;
        },
    };
    let init = match array_initializer_node(t, arr) {
        Some(x) => x,
        None => {
            return;
        },
    };
    proof {
        assert(node_wf(ns, init as int));
    }
    let node = t.node(init);
    let mut k: usize = 0;
    while k < node.children.len()
        invariant
            *node == ns[init as int],
            ns == t.view_nodes(),
            init < ns.len(),
            node_wf(ns, init as int),
            k <= node.children@.len(),
            e0 + named_groups_from(ns, init as int, 0) == views(out@) + named_groups_from(ns, init as int, k as int),
        decreases node.children.len() - k,
    {
        let e = node.children[k];
        let ghost before = views(out@);
        if kind_at(t, e, "string_literal") {
            let g = unquote_js(t.node(e).text.as_str());
            let mut symbol = prefixed("setNamedGroups(", g.as_str());
            push_char(&mut symbol, ')');
            proof {
                reveal_strlit(")");
                assert(symbol@ =~= "setNamedGroups("@ + g@ + ")"@);
            }
            let m = site_match(
                t,
                e,
                "javax.net.ssl.SSLParameters.setNamedGroups",
                "group",
                g,
                symbol,
                node_text(t, e),
                SiteContext::Call,
            );
            push_view(out, m);
        }
        assert(before + named_groups_from(ns, init as int, k as int) =~= views(out@) + named_groups_from(
            ns,
            init as int,
            k + 1,
        ));
        k = k + 1;
    }
    assert(views(out@) + named_groups_from(ns, init as int, k as int) =~= views(out@));
}

// ---------------------------------------------------------------------------
// Java `System.setProperty("jdk.tls.namedGroups", "a,b,c")`.

/// The string-literal named children of `i`, from the `k`-th.
pub open spec fn string_literal_children(ns: Seq<SyntaxNode>, i: int, k: int) -> Seq<int>
    decreases ns[i].named_children@.len() - k,
{
    let ch = ns[i].named_children@;
    if k < 0 || k >= ch.len() {
        Seq::empty()
    } else if kind_is(ns, ch[k] as int, "string_literal"@) {
        seq![ch[k] as int] + string_literal_children(ns, i, k + 1)
    } else {
        string_literal_children(ns, i, k + 1)
    }
}

/// The value literal of a `System.setProperty("jdk.tls.namedGroups", ...)`
/// call whose two arguments are string literals.
pub open spec fn named_groups_property(ns: Seq<SyntaxNode>, call: int) -> Option<int> {
    match (field_of(ns, call, "object"@), field_of(ns, call, "name"@)) {
        (Some(o), Some(n)) => if text_of(ns, o) != "System"@ || text_of(ns, n) != "setProperty"@ {
            None
        } else {
            match field_of(ns, call, "arguments"@) {
                Some(a) => {
                    let lits = string_literal_children(ns, a, 0);
                    if lits.len() != 2 || literal_value(ns, lits[0]) != "jdk.tls.namedGroups"@ {
                        None
                    } else {
                        Some(lits[1])
                    }
                },
                None => None,
            }
        },
        _ => None,
    }
}

/// The sites for the comma-separated groups `tokens`, from the `k`-th.
pub open spec fn property_groups_from(
    ns: Seq<SyntaxNode>,
    call: int,
    value: int,
    tokens: Seq<Seq<char>>,
    k: int,
) -> Seq<RawView>
    decreases tokens.len() - k,
{
    if k < 0 || k >= tokens.len() {
        Seq::empty()
    } else {
        let g = trim_ws(tokens[k]);
        let here = if g.len() == 0 {
            Seq::empty()
        } else {
            seq![
                view_at(
                    ns,
                    value,
                    "javax.net.ssl.SSLParameters.setNamedGroups"@,
                    one_arg("group"@, g),
                    "setProperty(jdk.tls.namedGroups, "@ + g + ")"@,
                    text_of(ns, call),
                    SiteContext::Call,
                ),
            ]
        };
        here + property_groups_from(ns, call, value, tokens, k + 1)
    }
}

pub open spec fn set_property_named_groups_spec(ns: Seq<SyntaxNode>, call: int) -> Seq<RawView> {
    match named_groups_property(ns, call) {
        Some(v) => property_groups_from(ns, call, v, split_chars(literal_value(ns, v), seq![',']), 0),
        None => Seq::empty(),
    }
}

fn string_literals_of(t: &SyntaxTree, i: usize) -> (r: Vec<usize>)
    requires
        i < t.view_nodes().len(),
    ensures
        r@.map_values(|x: usize| x as int) == string_literal_children(t.view_nodes(), i as int, 0),
        forall|k: int| 0 <= k < r@.len() ==> #[trigger] r@[k] < t.view_nodes().len(),
{
    proof {
        use_type_invariant(t);
        assert(node_wf(t.view_nodes(), i as int));
    }
    let ghost ns = t.view_nodes();
    let node = t.node(i);
    let mut r: Vec<usize> = Vec::new();
    let mut k: usize = 0;
    while k < node.named_children.len()
        invariant
            *node == ns[i as int],
            ns == t.view_nodes(),
            i < ns.len(),
            node_wf(ns, i as int),
            k <= node.named_children@.len(),
            string_literal_children(ns, i as int, 0) == r@.map_values(|x: usize| x as int)
                + string_literal_children(ns, i as int, k as int),
            forall|x: int| 0 <= x < r@.len() ==> #[trigger] r@[x] < ns.len(),
        decreases node.named_children.len() - k,
    {
        let c = node.named_children[k];
        let ghost before = r@.map_values(|x: usize| x as int);
        if kind_at(t, c, "string_literal") {
            r.push(c);
            assert(r@.map_values(|x: usize| x as int) =~= before.push(c as int));
        }
        assert(before + string_literal_children(ns, i as int, k as int) =~= r@.map_values(|x: usize| x as int)
            + string_literal_children(ns, i as int, k + 1));
        k = k + 1;
    }
    assert(r@.map_values(|x: usize| x as int) + string_literal_children(ns, i as int, k as int) =~= r@.map_values(
        |x: usize| x as int,
    ));
    r
}

/// Java `System.setProperty("jdk.tls.namedGroups", "a,b,c")`: one site per
/// non-empty comma-separated group.
pub fn match_java_set_property_named_groups(t: &SyntaxTree, call: usize, out: &mut Vec<RawMatch>)
    requires
        call < t.view_nodes().len(),
    ensures
        views(final(out)@) == views(old(out)@) + set_property_named_groups_spec(t.view_nodes(), call as int),
{
    let ghost ns = t.view_nodes();
    let ghost e0 = views(out@);
    assert(e0 + Seq::<RawView>::empty() =~= e0);
    let (o, n) = match (child_by_field(t, call, "object"), child_by_field(t, call, "name")) {
        (Some(o), Some(n)) => (o, n),
        _ => {
            return;
        },
    };
    if !text_is(t, o, "System") || !text_is(t, n, "setProperty") {
        return;
    }
    let a = match child_by_field(t, call, "arguments") {
        Some(x) => x,
        None => {
            return;
        },
    };
    let lits = string_literals_of(t, a);
    proof {
        assert(lits@.len() == string_literal_children(ns, a as int, 0).len());
    }
    if lits.len() != 2 {
        return;
    }
    proof {
        assert(lits@.map_values(|x: usize| x as int)[0] == lits@[0] as int);
        assert(lits@.map_values(|x: usize| x as int)[1] == lits@[1] as int);
    }
    if !str_eq(unquote_js(t.node(lits[0]).text.as_str()).as_str(), "jdk.tls.namedGroups") {
        return;
    }
    let v = lits[1];
    let value = unquote_js(t.node(v).text.as_str());
    let comma = one_char(',');
    let tokens = split_on_chars(&chars_of(value.as_str()), &comma);
    let ghost toks = split_chars(literal_value(ns, v as int), seq![',']);
    assert(comma@ =~= seq![',']);
    let snippet = node_text(t, call);
    let mut k: usize = 0;
    while k < tokens.len()
        invariant
            ns == t.view_nodes(),
            v < ns.len(),
            call < ns.len(),
            snippet@ == text_of(ns, call as int),
            tokens@.len() == toks.len(),
            forall|x: int| 0 <= x < tokens@.len() ==> #[trigger] tokens@[x]@ == toks[x],
            k <= tokens@.len(),
            e0 + property_groups_from(ns, call as int, v as int, toks, 0) == views(out@) + property_groups_from(
                ns,
                call as int,
                v as int,
                toks,
                k as int,
            ),
        decreases tokens.len() - k,
    {
        let ghost before = views(out@);
        let g = trim_chars(&tokens[k]);
        if g.len() > 0 {
            let gs = string_from_chars(&g);
            let mut symbol = prefixed("setProperty(jdk.tls.namedGroups, ", gs.as_str());
            push_char(&mut symbol, ')');
            proof {
                reveal_strlit(")");
                assert(symbol@ =~= "setProperty(jdk.tls.namedGroups, "@ + gs@ + ")"@);
            }
            let m = site_match(
                t,
                v,
                "javax.net.ssl.SSLParameters.setNamedGroups",
                "group",
                gs,
                symbol,
                snippet.clone(),
                SiteContext::Call,
            );
            push_view(out, m);
        }
        assert(before + property_groups_from(ns, call as int, v as int, toks, k as int) =~= views(out@)
            + property_groups_from(ns, call as int, v as int, toks, k + 1));
        k = k + 1;
    }
    assert(views(out@) + property_groups_from(ns, call as int, v as int, toks, k as int) =~= views(out@));
}

// ---------------------------------------------------------------------------
// BouncyCastle `TlsUtils.addIfSupported(groups, crypto, new int[]{...})`.

/// The array initializer of an `addIfSupported` call with three arguments.
pub open spec fn bc_initializer(ns: Seq<SyntaxNode>, call: int) -> Option<int> {
    match field_of(ns, call, "object"@) {
        Some(o) => if text_of(ns, o) != "TlsUtils"@ {
            None
        } else {
            match field_of(ns, call, "name"@) {
                Some(n) => if text_of(ns, n) != "addIfSupported"@ {
                    None
                } else {
                    match field_of(ns, call, "arguments"@) {
                        Some(a) => if ns[a].named_children@.len() != 3 {
                            None
                        } else {
                            array_initializer(ns, ns[a].named_children@[2] as int)
                        },
                        None => None,
                    }
                },
                None => None,
            }
        },
        None => None,
    }
}

/// The `NamedGroup` elements of `init`, from the `k`-th named child;
/// `None` when a field access lacks its field.
pub open spec fn bc_groups_from(ns: Seq<SyntaxNode>, init: int, k: int) -> Option<Seq<RawView>>
    decreases ns[init].named_children@.len() - k,
{
    let ch = ns[init].named_children@;
    if k < 0 || k >= ch.len() {
        Some(Seq::empty())
    } else {
        let e = ch[k] as int;
        let rest = bc_groups_from(ns, init, k + 1);
        let group = if kind_is(ns, e, "field_access"@) {
            match field_of(ns, e, "field"@) {
                Some(f) => Some(Some(text_of(ns, f))),
                None => None,
            }
        } else if kind_is(ns, e, "identifier"@) {
            Some(Some(text_of(ns, e)))
        } else {
            Some(None)
        };
        match (group, rest) {
            (Some(Some(g)), Some(r)) => Some(
                seq![
                    view_at(
                        ns,
                        e,
                        "org.bouncycastle.tls.NamedGroup"@,
                        one_arg("group"@, g),
                        "NamedGroup."@ + g,
                        text_of(ns, e),
                        SiteContext::Call,
                    ),
                ] + r,
            ),
            (Some(None), Some(r)) => Some(r),
            _ => None,
        }
    }
}

pub open spec fn bc_named_groups_spec(ns: Seq<SyntaxNode>, call: int) -> Seq<RawView> {
    match bc_initializer(ns, call) {
        Some(init) => match bc_groups_from(ns, init, 0) {
            Some(s) => s,
            None => Seq::empty(),
        },
        None => Seq::empty(),
    }
}

fn bc_initializer_node(t: &SyntaxTree, call: usize) -> (r: Option<usize>)
    requires
        call < t.view_nodes().len(),
    ensures
        match r {
            Some(v) => bc_initializer(t.view_nodes(), call as int) == Some(v as int) && v < t.view_nodes().len(),
            None => bc_initializer(t.view_nodes(), call as int) is None,
        },
{
    proof {
        use_type_invariant(t);
    }
    let o = match child_by_field(t, call, "object") {
        Some(x) => x,
        None => {
            return None;
        },
    };
    if !text_is(t, o, "TlsUtils") {
        return None;
    }
    let n = match child_by_field(t, call, "name") {
        Some(x) => x,
        None => {
            return None;
        },
    };
    if !text_is(t, n, "addIfSupported") {
        return None;
    }
    let a = match child_by_field(t, call, "arguments") {
        Some(x) => x,
        None => {
            return None;
        },
    };
    let node = t.node(a);
    if node.named_children.len() != 3 {
        return None;
    }
    proof {
        assert(node_wf(t.view_nodes(), a as int));
    }
    array_initializer_node(t, node.named_children[2])
}

/// BouncyCastle `TlsUtils.addIfSupported(supportedGroups, crypto, new
/// int[]{ NamedGroup.X25519MLKEM768, ... })`: one site per named group.
pub fn match_bc_named_groups(t: &SyntaxTree, call: usize, out: &mut Vec<RawMatch>)
    requires
        call < t.view_nodes().len(),
    ensures
        views(final(out)@) == views(old(out)@) + bc_named_groups_spec(t.view_nodes(), call as int),
{
    proof {
        use_type_invariant(t);
    }
    let ghost ns = t.view_nodes();
    let init = match bc_initializer_node(t, call) {
        Some(x) => x,
        None => {
            assert(views(out@) =~= views(out@) + Seq::<RawView>::empty());
            return;
        },
    };
    proof {
        assert(node_wf(ns, init as int));
    }
    let node = t.node(init);
    let mut found: Vec<RawMatch> = Vec::new();
    let mut k: usize = 0;
    while k < node.named_children.len()
        invariant
            *node == ns[init as int],
            ns == t.view_nodes(),
            init < ns.len(),
            node_wf(ns, init as int),
            bc_initializer(ns, call as int) == Some(init as int),
            k <= node.named_children@.len(),
            bc_groups_from(ns, init as int, 0) == match bc_groups_from(ns, init as int, k as int) {
                Some(r) => Some(views(found@) + r),
                None => None,
            },
        decreases node.named_children.len() - k,
    {
        let e = node.named_children[k];
        let ghost before = views(found@);
        let group = if kind_at(t, e, "field_access") {
            match child_by_field(t, e, "field") {
                Some(f) => Some(node_text(t, f)),
                None => {
                    assert(bc_groups_from(ns, init as int, k as int) is None);
                    assert(bc_named_groups_spec(ns, call as int) =~= Seq::<RawView>::empty());
                    assert(views(out@) =~= views(out@) + Seq::<RawView>::empty());
                    return;
                },
            }
        } else if kind_at(t, e, "identifier") {
            Some(node_text(t, e))
        } else {
            None
        };
        match group {
            Some(g) => {
                let symbol = prefixed("NamedGroup.", g.as_str());
                let m = site_match(t, e, "org.bouncycastle.tls.NamedGroup", "group", g, symbol, node_text(t, e), SiteContext::Call);
                push_view(&mut found, m);
                proof {
                    match bc_groups_from(ns, init as int, k + 1) {
                        Some(r) => {
                            let v = seq![views(found@).last()];
                            assert(views(found@) =~= before + v);
                            assert(before + (v + r) =~= views(found@) + r);
                        },
                        None => {},
                    }
                }
            },
            None => {},
        }
        k = k + 1;
    }
    assert(views(found@) + Seq::<RawView>::empty() =~= views(found@));
    append_views(out, found);
}

// ---------------------------------------------------------------------------
// OpenSSL `SSL_CTX_set1_groups_list(ctx, "P-521:X25519MLKEM768")`.

/// The list literal of a groups-list call: the second argument of
/// `SSL_CTX_set1_groups_list` / `SSL_set1_groups_list`, or the third of
/// `SSL_CONF_cmd(ctx, "Groups" | "Curves", ...)` (case-insensitive).
pub open spec fn groups_list_literal(ns: Seq<SyntaxNode>, call: int) -> Option<int> {
    match (field_of(ns, call, "function"@), field_of(ns, call, "arguments"@)) {
        (Some(f), Some(a)) => {
            let name = text_of(ns, f);
            let list = if name == "SSL_CTX_set1_groups_list"@ || name == "SSL_set1_groups_list"@ {
                nth_real(ns, a, 1)
            } else if name == "SSL_CONF_cmd"@ {
                match nth_real(ns, a, 1) {
                    Some(cmd) => if kind_is(ns, cmd, "string_literal"@) && (lower_seq(literal_value(ns, cmd))
                        == "groups"@ || lower_seq(literal_value(ns, cmd)) == "curves"@) {
                        nth_real(ns, a, 2)
                    } else {
                        None
                    },
                    None => None,
                }
            } else {
                None
            };
            match list {
                Some(l) => if kind_is(ns, l, "string_literal"@) {
                    Some(l)
                } else {
                    None
                },
                None => None,
            }
        },
        _ => None,
    }
}

pub open spec fn group_prefixes() -> Seq<char> {
    seq!['*', '?', '-']
}

/// The sites for the `/`- or `:`-separated groups `tokens`, from the
/// `k`-th: prefixes `*`, `?` and `-` stripped, empty names and `DEFAULT`
/// skipped.
pub open spec fn list_groups_from(
    ns: Seq<SyntaxNode>,
    call: int,
    list: int,
    fn_name: Seq<char>,
    tokens: Seq<Seq<char>>,
    k: int,
) -> Seq<RawView>
    decreases tokens.len() - k,
{
    if k < 0 || k >= tokens.len() {
        Seq::empty()
    } else {
        let g = trim_start_set(tokens[k], group_prefixes());
        let here = if g.len() == 0 || lower_seq(g) == "default"@ {
            Seq::empty()
        } else {
            seq![
                view_at(
                    ns,
                    list,
                    "openssl.SSL_CTX_set1_groups_list"@,
                    seq![("group"@, ArgVal::Str(g)), ("fn_name"@, ArgVal::Str(fn_name))],
                    fn_name + "("@ + g + ")"@,
                    text_of(ns, call),
                    SiteContext::Call,
                ),
            ]
        };
        here + list_groups_from(ns, call, list, fn_name, tokens, k + 1)
    }
}

pub open spec fn c_ssl_groups_list_spec(ns: Seq<SyntaxNode>, call: int) -> Seq<RawView> {
    match (groups_list_literal(ns, call), field_of(ns, call, "function"@)) {
        (Some(l), Some(f)) => list_groups_from(
            ns,
            call,
            l,
            text_of(ns, f),
            split_chars(literal_value(ns, l), seq!['/', ':']),
            0,
        ),
        _ => Seq::empty(),
    }
}

fn lower_is(s: &str, lower: &str) -> (r: bool)
    ensures
        r == (lower_seq(s@) == lower@),
{
    let l = chars_lower(&chars_of(s));
    str_eq(string_from_chars(&l).as_str(), lower)
}

fn groups_list_node(t: &SyntaxTree, call: usize) -> (r: Option<usize>)
    requires
        call < t.view_nodes().len(),
    ensures
        match r {
            Some(l) => groups_list_literal(t.view_nodes(), call as int) == Some(l as int) && l < t.view_nodes().len(),
            None => groups_list_literal(t.view_nodes(), call as int) is None,
        },
{
    let (f, a) = match (child_by_field(t, call, "function"), child_by_field(t, call, "arguments")) {
        (Some(f), Some(a)) => (f, a),
        _ => {
            return None;
        },
    };
    let name = t.node(f).text.as_str();
    let list = if str_eq(name, "SSL_CTX_set1_groups_list") || str_eq(name, "SSL_set1_groups_list") {
        nth_real_arg(t, a, 1)
    } else if str_eq(name, "SSL_CONF_cmd") {
        match nth_real_arg(t, a, 1) {
            Some(cmd) => {
                let cmd_text = unquote_js(t.node(cmd).text.as_str());
                if kind_at(t, cmd, "string_literal") && (lower_is(cmd_text.as_str(), "groups") || lower_is(
                    cmd_text.as_str(),
                    "curves",
                )) {
                    nth_real_arg(t, a, 2)
                } else {
                    None
                }
            },
            None => None,
        }
    } else {
        None
    };
    match list {
        Some(l) => if kind_at(t, l, "string_literal") {
            Some(l)
        } else {
            None
        },
        None => None,
    }
}

/// OpenSSL `SSL_CTX_set1_groups_list(ctx, "...")`, `SSL_set1_groups_list`
/// and `SSL_CONF_cmd(ctx, "Groups", "...")`: one site per group in the
/// list.
pub fn match_c_ssl_groups_list(t: &SyntaxTree, call: usize, out: &mut Vec<RawMatch>)
    requires
        call < t.view_nodes().len(),
    ensures
        views(final(out)@) == views(old(out)@) + c_ssl_groups_list_spec(t.view_nodes(), call as int),
{
    let ghost ns = t.view_nodes();
    let ghost e0 = views(out@);
    assert(e0 + Seq::<RawView>::empty() =~= e0);
    let l = match groups_list_node(t, call) {
        Some(l) => l,
        None => {
            return;
        },
    };
    let f = match child_by_field(t, call, "function") {
        Some(f) => f,
        None => {
            return;
        },
    };
    let fn_name = node_text(t, f);
    let value = unquote_js(t.node(l).text.as_str());
    let seps = two_chars('/', ':');
    let tokens = split_on_chars(&chars_of(value.as_str()), &seps);
    let ghost toks = split_chars(literal_value(ns, l as int), seq!['/', ':']);
    assert(seps@ =~= seq!['/', ':']);
    let mut prefixes: Vec<char> = Vec::new();
    prefixes.push('*');
    prefixes.push('?');
    prefixes.push('-');
    assert(prefixes@ =~= group_prefixes());
    let snippet = node_text(t, call);
    let mut k: usize = 0;
    while k < tokens.len()
        invariant
            ns == t.view_nodes(),
            l < ns.len(),
            call < ns.len(),
            snippet@ == text_of(ns, call as int),
            prefixes@ == group_prefixes(),
            tokens@.len() == toks.len(),
            forall|x: int| 0 <= x < tokens@.len() ==> #[trigger] tokens@[x]@ == toks[x],
            k <= tokens@.len(),
            e0 + list_groups_from(ns, call as int, l as int, fn_name@, toks, 0) == views(out@) + list_groups_from(
                ns,
                call as int,
                l as int,
                fn_name@,
                toks,
                k as int,
            ),
        decreases tokens.len() - k,
    {
        let ghost before = views(out@);
        let g = trim_start_set_chars(&tokens[k], &prefixes);
        let gs = string_from_chars(&g);
        if g.len() > 0 && !lower_is(gs.as_str(), "default") {
            let mut symbol = fn_name.clone();
            push_char(&mut symbol, '(');
            push_text(&mut symbol, gs.as_str());
            push_char(&mut symbol, ')');
            proof {
                reveal_strlit("(");
                reveal_strlit(")");
                assert(symbol@ =~= fn_name@ + "("@ + gs@ + ")"@);
            }
            let mut args = ArgMap::new();
            let ghost gv = gs@;
            args.insert(owned("group"), ArgValue::Str(gs));
            let ghost e1 = args@;
            proof {
                assert(first_key_index(Seq::<(Seq<char>, ArgVal)>::empty(), "group"@) == -1);
                assert(e1 =~= seq![("group"@, ArgVal::Str(gv))]);
                reveal_strlit("group");
                reveal_strlit("fn_name");
                assert("group"@[0] != "fn_name"@[0]);
                assert(e1.drop_first() =~= Seq::<(Seq<char>, ArgVal)>::empty());
                assert(first_key_index(e1.drop_first(), "fn_name"@) == -1);
                assert(first_key_index(e1, "fn_name"@) == -1);
            }
            args.insert(owned("fn_name"), ArgValue::Str(fn_name.clone()));
            assert(args@ =~= seq![("group"@, ArgVal::Str(gv)), ("fn_name"@, ArgVal::Str(fn_name@))]);
            let ln = t.node(l);
            let m = RawMatch {
                api: owned("openssl.SSL_CTX_set1_groups_list"),
                args,
                line: ln.line,
                offset: ln.offset,
                symbol,
                snippet: snippet.clone(),
                site_context: SiteContext::Call,
            };
            push_view(out, m);
        }
        assert(before + list_groups_from(ns, call as int, l as int, fn_name@, toks, k as int) =~= views(out@)
            + list_groups_from(ns, call as int, l as int, fn_name@, toks, k + 1));
        k = k + 1;
    }
    assert(views(out@) + list_groups_from(ns, call as int, l as int, fn_name@, toks, k as int) =~= views(out@));
}

// ---------------------------------------------------------------------------
// rustls `kx_groups` lists.

/// Follow `Cow::Borrowed(&[...])`, `&[...]` and the like down to the array
/// expression.
pub open spec fn array_literal(ns: Seq<SyntaxNode>, n: int) -> Option<int>
    decreases ns.len() - n,
{
    if n < 0 || n >= ns.len() {
        None
    } else if kind_is(ns, n, "array_expression"@) {
        Some(n)
    } else if kind_is(ns, n, "reference_expression"@) {
        match field_of(ns, n, "value"@) {
            Some(v) => if n < v < ns.len() {
                array_literal(ns, v)
            } else {
                None
            },
            None => None,
        }
    } else if kind_is(ns, n, "call_expression"@) {
        match field_of(ns, n, "arguments"@) {
            Some(a) => match nchild(ns, a, 0) {
                Some(c) => if n < c < ns.len() {
                    array_literal(ns, c)
                } else {
                    None
                },
                None => None,
            },
            None => None,
        }
    } else {
        None
    }
}

/// The value of a `kx_groups:` field or of a `*KX_GROUPS*` constant or
/// static.
pub open spec fn kx_groups_value(ns: Seq<SyntaxNode>, node: int) -> Option<int> {
    if kind_is(ns, node, "field_initializer"@) {
        match field_of(ns, node, "field"@) {
            Some(f) => if text_of(ns, f) == "kx_groups"@ {
                field_of(ns, node, "value"@)
            } else {
                None
            },
            None => None,
        }
    } else if kind_is(ns, node, "const_item"@) || kind_is(ns, node, "static_item"@) {
        match field_of(ns, node, "name"@) {
            Some(n) => if contains_seq(text_of(ns, n), "KX_GROUPS"@) {
                field_of(ns, node, "value"@)
            } else {
                None
            },
            None => None,
        }
    } else {
        None
    }
}

/// The group elements of array `arr`, from its `k`-th named child; `None`
/// when a scoped path lacks its name.
pub open spec fn kx_groups_from(ns: Seq<SyntaxNode>, arr: int, k: int) -> Option<Seq<RawView>>
    decreases ns[arr].named_children@.len() - k,
{
    let ch = ns[arr].named_children@;
    if k < 0 || k >= ch.len() {
        Some(Seq::empty())
    } else {
        let e = ch[k] as int;
        let rest = kx_groups_from(ns, arr, k + 1);
        let name = if kind_is(ns, e, "scoped_identifier"@) {
            match field_of(ns, e, "name"@) {
                Some(n) => Some(Some(n)),
                None => None,
            }
        } else if kind_is(ns, e, "identifier"@) {
            Some(Some(e))
        } else {
            Some(None)
        };
        match (name, rest) {
            (Some(Some(n)), Some(r)) => Some(
                seq![
                    view_at(
                        ns,
                        e,
                        "rustls.CryptoProvider.kx_groups"@,
                        one_arg("group"@, text_of(ns, n)),
                        text_of(ns, n),
                        text_of(ns, e),
                        SiteContext::Call,
                    ),
                ] + r,
            ),
            (Some(None), Some(r)) => Some(r),
            _ => None,
        }
    }
}

pub open spec fn rust_kx_groups_spec(ns: Seq<SyntaxNode>, node: int) -> Seq<RawView> {
    match kx_groups_value(ns, node) {
        Some(v) => match array_literal(ns, v) {
            Some(arr) => match kx_groups_from(ns, arr, 0) {
                Some(s) => s,
                None => Seq::empty(),
            },
            None => Seq::empty(),
        },
        None => Seq::empty(),
    }
}

fn array_literal_node(t: &SyntaxTree, n: usize) -> (r: Option<usize>)
    requires
        n < t.view_nodes().len(),
    ensures
        match r {
            Some(a) => array_literal(t.view_nodes(), n as int) == Some(a as int) && a < t.view_nodes().len(),
            None => array_literal(t.view_nodes(), n as int) is None,
        },
    decreases t.view_nodes().len() - n,
{
    if kind_at(t, n, "array_expression") {
        Some(n)
    } else if kind_at(t, n, "reference_expression") {
        match child_by_field(t, n, "value") {
            Some(v) => array_literal_node(t, v),
            None => None,
        }
    } else if kind_at(t, n, "call_expression") {
        match child_by_field(t, n, "arguments") {
            Some(a) => match named_child(t, a, 0) {
                Some(c) => array_literal_node(t, c),
                None => None,
            },
            None => None,
        }
    } else {
        None
    }
}

fn kx_groups_value_node(t: &SyntaxTree, node: usize) -> (r: Option<usize>)
    requires
        node < t.view_nodes().len(),
    ensures
        match r {
            Some(v) => kx_groups_value(t.view_nodes(), node as int) == Some(v as int) && v < t.view_nodes().len(),
            None => kx_groups_value(t.view_nodes(), node as int) is None,
        },
{
    if kind_at(t, node, "field_initializer") {
        match child_by_field(t, node, "field") {
            Some(f) => if text_is(t, f, "kx_groups") {
                child_by_field(t, node, "value")
            } else {
                None
            },
            None => None,
        }
    } else if kind_at(t, node, "const_item") || kind_at(t, node, "static_item") {
        match child_by_field(t, node, "name") {
            Some(n) => if str_contains(t.node(n).text.as_str(), "KX_GROUPS") {
                child_by_field(t, node, "value")
            } else {
                None
            },
            None => None,
        }
    } else {
        None
    }
}

/// rustls `kx_groups: Cow::Borrowed(&[...])` fields and `*KX_GROUPS*`
/// constants: one site per listed group.
pub fn match_rust_kx_groups(t: &SyntaxTree, node: usize, out: &mut Vec<RawMatch>)
    requires
        node < t.view_nodes().len(),
    ensures
        views(final(out)@) == views(old(out)@) + rust_kx_groups_spec(t.view_nodes(), node as int),
{
    proof {
        use_type_invariant(t);
    }
    let ghost ns = t.view_nodes();
    let v = match kx_groups_value_node(t, node) {
        Some(v) => v,
        None => {
            assert(views(out@) =~= views(out@) + Seq::<RawView>::empty());
            return;
        },
    };
    let arr = match array_literal_node(t, v) {
        Some(a) => a,
        None => {
            assert(views(out@) =~= views(out@) + Seq::<RawView>::empty());
            return;
        },
    };
    proof {
        assert(node_wf(ns, arr as int));
    }
    let an = t.node(arr);
    let mut found: Vec<RawMatch> = Vec::new();
    let mut k: usize = 0;
    while k < an.named_children.len()
        invariant
            *an == ns[arr as int],
            ns == t.view_nodes(),
            arr < ns.len(),
            node_wf(ns, arr as int),
            kx_groups_value(ns, node as int) == Some(v as int),
            array_literal(ns, v as int) == Some(arr as int),
            k <= an.named_children@.len(),
            kx_groups_from(ns, arr as int, 0) == match kx_groups_from(ns, arr as int, k as int) {
                Some(r) => Some(views(found@) + r),
                None => None,
            },
        decreases an.named_children.len() - k,
    {
        let e = an.named_children[k];
        let ghost before = views(found@);
        let name = if kind_at(t, e, "scoped_identifier") {
            match child_by_field(t, e, "name") {
                Some(n) => Some(n),
                None => {
                    assert(kx_groups_from(ns, arr as int, k as int) is None);
                    assert(rust_kx_groups_spec(ns, node as int) =~= Seq::<RawView>::empty());
                    assert(views(out@) =~= views(out@) + Seq::<RawView>::empty());
                    return;
                },
            }
        } else if kind_at(t, e, "identifier") {
            Some(e)
        } else {
            None
        };
        match name {
            Some(n) => {
                let group = node_text(t, n);
                let symbol = group.clone();
                let m = site_match(t, e, "rustls.CryptoProvider.kx_groups", "group", group, symbol, node_text(t, e), SiteContext::Call);
                push_view(&mut found, m);
                proof {
                    match kx_groups_from(ns, arr as int, k + 1) {
                        Some(r) => {
                            let x = seq![views(found@).last()];
                            assert(views(found@) =~= before + x);
                            assert(before + (x + r) =~= views(found@) + r);
                        },
                        None => {},
                    }
                }
            },
            None => {},
        }
        k = k + 1;
    }
    assert(views(found@) + Seq::<RawView>::empty() =~= views(found@));
    append_views(out, found);
}

// ---------------------------------------------------------------------------
// OpenMLS post-quantum ciphersuites and the rustls post-quantum provider.

pub open spec fn openmls_ciphersuite_spec(ns: Seq<SyntaxNode>, node: int) -> Seq<RawView> {
    match (field_of(ns, node, "path"@), field_of(ns, node, "name"@)) {
        (Some(p), Some(n)) => {
            let variant = text_of(ns, n);
            if text_of(ns, p) == "Ciphersuite"@ && (contains_seq(variant, "MLKEM"@) || contains_seq(variant, "XWING"@)) {
                seq![
                    view_at(
                        ns,
                        node,
                        "openmls.Ciphersuite"@,
                        one_arg("variant"@, variant),
                        variant,
                        text_of(ns, node),
                        SiteContext::Call,
                    ),
                ]
            } else {
                Seq::empty()
            }
        },
        _ => Seq::empty(),
    }
}

/// OpenMLS `Ciphersuite::MLS_*_MLKEM*` / `Ciphersuite::MLS_*_XWING_*`.
pub fn match_rust_openmls_ciphersuite(t: &SyntaxTree, node: usize, out: &mut Vec<RawMatch>)
    requires
        node < t.view_nodes().len(),
    ensures
        views(final(out)@) == views(old(out)@) + openmls_ciphersuite_spec(t.view_nodes(), node as int),
{
    let ghost e0 = views(out@);
    assert(e0 + Seq::<RawView>::empty() =~= e0);
    let p = match child_by_field(t, node, "path") {
        Some(x) => x,
        None => {
            return;
        },
    };
    if !text_is(t, p, "Ciphersuite") {
        return;
    }
    let n = match child_by_field(t, node, "name") {
        Some(x) => x,
        None => {
            return;
        },
    };
    let variant = node_text(t, n);
    if !(str_contains(variant.as_str(), "MLKEM") || str_contains(variant.as_str(), "XWING")) {
        return;
    }
    let symbol = variant.clone();
    let m = site_match(t, node, "openmls.Ciphersuite", "variant", variant, symbol, node_text(t, node), SiteContext::Call);
    push_view(out, m);
}

pub open spec fn pq_provider_spec(ns: Seq<SyntaxNode>, node: int) -> Seq<RawView> {
    match (field_of(ns, node, "path"@), field_of(ns, node, "name"@)) {
        (Some(p), Some(n)) => if text_of(ns, p) == "rustls_post_quantum"@ && text_of(ns, n) == "DEFAULT_PROVIDER"@ {
            seq![
                view_at(
                    ns,
                    node,
                    "rustls.CryptoProvider.kx_groups"@,
                    one_arg("group"@, "X25519MLKEM768"@),
                    "rustls_post_quantum::DEFAULT_PROVIDER"@,
                    text_of(ns, node),
                    SiteContext::Call,
                ),
            ]
        } else {
            Seq::empty()
        },
        _ => Seq::empty(),
    }
}

/// `rustls_post_quantum::DEFAULT_PROVIDER`, whose key exchange is
/// X25519MLKEM768.
pub fn match_rust_post_quantum_provider(t: &SyntaxTree, node: usize, out: &mut Vec<RawMatch>)
    requires
        node < t.view_nodes().len(),
    ensures
        views(final(out)@) == views(old(out)@) + pq_provider_spec(t.view_nodes(), node as int),
{
    let ghost e0 = views(out@);
    assert(e0 + Seq::<RawView>::empty() =~= e0);
    let p = match child_by_field(t, node, "path") {
        Some(x) => x,
        None => {
            return;
        },
    };
    if !text_is(t, p, "rustls_post_quantum") {
        return;
    }
    let n = match child_by_field(t, node, "name") {
        Some(x) => x,
        None => {
            return;
        },
    };
    if !text_is(t, n, "DEFAULT_PROVIDER") {
        return;
    }
    let m = site_match(
        t,
        node,
        "rustls.CryptoProvider.kx_groups",
        "group",
        owned("X25519MLKEM768"),
        owned("rustls_post_quantum::DEFAULT_PROVIDER"),
        node_text(t, node),
        SiteContext::Call,
    );
    push_view(out, m);
}

} // verus!
