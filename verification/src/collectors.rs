//! File-scope facts gathered before the walk: names bound bare from a crypto
//! module (`from hashlib import md5`, `const { generateKeyPair } =
//! require('crypto')`), Go package aliases of post-quantum signature
//! packages, and C/C++ `#include` targets.
use vstd::prelude::*;
use crate::literals::{go_pq_family_spec, go_pq_signature_family, js_bare_import_module_prefix, js_bare_prefix_spec, js_quotes, unquote_js};
use crate::matcher::pairs_of;
use crate::rules::Language;
use crate::split::{last_segment, last_segment_of};
use crate::syntax::{SyntaxNode, SyntaxTree, child_by_field, field_of, kind_is, node_wf, text_of, tree_wf};
use crate::text::{
    chars_of, is_prefix, owned, push_char, push_text, str_eq, str_starts_with, string_from_chars,
    trim_set, trim_set_chars, one_char,
};

verus! {

/// Which bindings a gather collects.
pub enum Gather {
    /// Go: local alias → post-quantum signature family.
    GoPqAliases,
    /// Python: bare name → `hashlib.<name>`.
    PythonBare,
    /// JavaScript / TypeScript: bare name → `<module>.<name>`.
    JsBare,
}

// ---------------------------------------------------------------------------
// Go post-quantum package aliases.

/// An `import_spec` of a `circl` signature package: its local name (the
/// alias, or the last path segment) and family.
pub open spec fn pq_alias_pairs(ns: Seq<SyntaxNode>, i: int) -> Seq<(Seq<char>, Seq<char>)> {
    if !kind_is(ns, i, "import_spec"@) {
        Seq::empty()
    } else {
        match field_of(ns, i, "path"@) {
            None => Seq::empty(),
            Some(pn) => {
                let path = trim_set(text_of(ns, pn), js_quotes());
                match go_pq_family_spec(path) {
                    None => Seq::empty(),
                    Some(family) => {
                        let local = match field_of(ns, i, "name"@) {
                            Some(n) => text_of(ns, n),
                            None => last_segment(path, seq!['/']),
                        };
                        seq![(local, family)]
                    },
                }
            },
        }
    }
}

// ---------------------------------------------------------------------------
// Python `from hashlib import ...`.

pub open spec fn qualified(module: Seq<char>, name: Seq<char>) -> Seq<char> {
    module.push('.') + name
}

/// One imported name of a `from hashlib import` statement.
pub open spec fn python_name_pairs(ns: Seq<SyntaxNode>, c: int) -> Seq<(Seq<char>, Seq<char>)> {
    if kind_is(ns, c, "dotted_name"@) || kind_is(ns, c, "identifier"@) {
        seq![(text_of(ns, c), qualified("hashlib"@, text_of(ns, c)))]
    } else if kind_is(ns, c, "aliased_import"@) {
        match (field_of(ns, c, "name"@), field_of(ns, c, "alias"@)) {
            (Some(o), Some(a)) => seq![(text_of(ns, a), qualified("hashlib"@, text_of(ns, o)))],
            _ => Seq::empty(),
        }
    } else {
        Seq::empty()
    }
}

/// The imported names among the `name` fields of `i`, from entry `k`.
pub open spec fn python_names_from(ns: Seq<SyntaxNode>, i: int, k: int) -> Seq<(Seq<char>, Seq<char>)>
    decreases ns[i].fields@.len() - k,
{
    let fs = ns[i].fields@;
    if k < 0 || k >= fs.len() {
        Seq::empty()
    } else if fs[k].0@ == "name"@ {
        python_name_pairs(ns, fs[k].1 as int) + python_names_from(ns, i, k + 1)
    } else {
        python_names_from(ns, i, k + 1)
    }
}

pub open spec fn python_bare_pairs(ns: Seq<SyntaxNode>, i: int) -> Seq<(Seq<char>, Seq<char>)> {
    if kind_is(ns, i, "import_from_statement"@) && (field_of(ns, i, "module_name"@) matches Some(m)
        && text_of(ns, m) == "hashlib"@) {
        python_names_from(ns, i, 0)
    } else {
        Seq::empty()
    }
}

// ---------------------------------------------------------------------------
// JavaScript / TypeScript `require` destructuring and named imports.

/// The module prefix a `require(...)` call's first argument names.
pub open spec fn required_prefix(ns: Seq<SyntaxNode>, call: int) -> Option<Seq<char>> {
    match field_of(ns, call, "arguments"@) {
        Some(a) => if ns[a].named_children@.len() > 0 {
            js_bare_prefix_spec(trim_set(text_of(ns, ns[a].named_children@[0] as int), js_quotes()))
        } else {
            None
        },
        None => None,
    }
}

/// One element of a destructuring pattern.
pub open spec fn pattern_element_pairs(ns: Seq<SyntaxNode>, e: int, module: Seq<char>) -> Seq<(Seq<char>, Seq<char>)> {
    if kind_is(ns, e, "shorthand_property_identifier_pattern"@) {
        seq![(text_of(ns, e), qualified(module, text_of(ns, e)))]
    } else if kind_is(ns, e, "pair_pattern"@) {
        match (field_of(ns, e, "key"@), field_of(ns, e, "value"@)) {
            (Some(key), Some(v)) => seq![(text_of(ns, v), qualified(module, text_of(ns, key)))],
            _ => Seq::empty(),
        }
    } else {
        Seq::empty()
    }
}

/// The elements of the pattern `p`, from its `k`-th named child.
pub open spec fn pattern_pairs(ns: Seq<SyntaxNode>, p: int, module: Seq<char>, k: int) -> Seq<(Seq<char>, Seq<char>)>
    decreases ns[p].named_children@.len() - k,
{
    let ch = ns[p].named_children@;
    if k < 0 || k >= ch.len() {
        Seq::empty()
    } else {
        pattern_element_pairs(ns, ch[k] as int, module) + pattern_pairs(ns, p, module, k + 1)
    }
}

/// `const { a, b: c } = require('crypto')`.
pub open spec fn require_pairs(ns: Seq<SyntaxNode>, i: int) -> Seq<(Seq<char>, Seq<char>)> {
    match (field_of(ns, i, "name"@), field_of(ns, i, "value"@)) {
        (Some(n), Some(v)) => if kind_is(ns, n, "object_pattern"@) && kind_is(ns, v, "call_expression"@) && (field_of(
            ns,
            v,
            "function"@,
        ) matches Some(f) && text_of(ns, f) == "require"@) {
            match required_prefix(ns, v) {
                Some(module) => pattern_pairs(ns, n, module, 0),
                None => Seq::empty(),
            }
        } else {
            Seq::empty()
        },
        _ => Seq::empty(),
    }
}

/// One `import_specifier`: its local name (the alias, or the name itself).
pub open spec fn specifier_pairs(ns: Seq<SyntaxNode>, s: int, module: Seq<char>) -> Seq<(Seq<char>, Seq<char>)> {
    match field_of(ns, s, "name"@) {
        Some(o) => {
            let local = match field_of(ns, s, "alias"@) {
                Some(a) => text_of(ns, a),
                None => text_of(ns, o),
            };
            seq![(local, qualified(module, text_of(ns, o)))]
        },
        None => Seq::empty(),
    }
}

/// The `import_specifier`s of a `named_imports` node, from its `k`-th
/// named child.
pub open spec fn named_imports_pairs(ns: Seq<SyntaxNode>, ni: int, module: Seq<char>, k: int) -> Seq<(Seq<char>, Seq<char>)>
    decreases ns[ni].named_children@.len() - k,
{
    let ch = ns[ni].named_children@;
    if k < 0 || k >= ch.len() {
        Seq::empty()
    } else if kind_is(ns, ch[k] as int, "import_specifier"@) {
        specifier_pairs(ns, ch[k] as int, module) + named_imports_pairs(ns, ni, module, k + 1)
    } else {
        named_imports_pairs(ns, ni, module, k + 1)
    }
}

/// The `named_imports` of an `import_clause`, from its `k`-th named child.
pub open spec fn clause_pairs(ns: Seq<SyntaxNode>, c: int, module: Seq<char>, k: int) -> Seq<(Seq<char>, Seq<char>)>
    decreases ns[c].named_children@.len() - k,
{
    let ch = ns[c].named_children@;
    if k < 0 || k >= ch.len() {
        Seq::empty()
    } else if kind_is(ns, ch[k] as int, "named_imports"@) {
        named_imports_pairs(ns, ch[k] as int, module, 0) + clause_pairs(ns, c, module, k + 1)
    } else {
        clause_pairs(ns, c, module, k + 1)
    }
}

/// The `import_clause`s of an `import_statement`, from its `k`-th named
/// child.
pub open spec fn import_clauses_pairs(ns: Seq<SyntaxNode>, st: int, module: Seq<char>, k: int) -> Seq<(Seq<char>, Seq<char>)>
    decreases ns[st].named_children@.len() - k,
{
    let ch = ns[st].named_children@;
    if k < 0 || k >= ch.len() {
        Seq::empty()
    } else if kind_is(ns, ch[k] as int, "import_clause"@) {
        clause_pairs(ns, ch[k] as int, module, 0) + import_clauses_pairs(ns, st, module, k + 1)
    } else {
        import_clauses_pairs(ns, st, module, k + 1)
    }
}

/// `import { a, b as c } from 'crypto'`.
pub open spec fn import_pairs(ns: Seq<SyntaxNode>, i: int) -> Seq<(Seq<char>, Seq<char>)> {
    match field_of(ns, i, "source"@) {
        Some(s) => match js_bare_prefix_spec(trim_set(text_of(ns, s), js_quotes())) {
            Some(module) => import_clauses_pairs(ns, i, module, 0),
            None => Seq::empty(),
        },
        None => Seq::empty(),
    }
}

pub open spec fn js_bare_pairs(ns: Seq<SyntaxNode>, i: int) -> Seq<(Seq<char>, Seq<char>)> {
    if kind_is(ns, i, "variable_declarator"@) {
        require_pairs(ns, i)
    } else if kind_is(ns, i, "import_statement"@) {
        import_pairs(ns, i)
    } else {
        Seq::empty()
    }
}

// ---------------------------------------------------------------------------
// Gathering over a whole subtree.

pub open spec fn node_pairs(ns: Seq<SyntaxNode>, i: int, g: Gather) -> Seq<(Seq<char>, Seq<char>)> {
    match g {
        Gather::GoPqAliases => pq_alias_pairs(ns, i),
        Gather::PythonBare => python_bare_pairs(ns, i),
        Gather::JsBare => js_bare_pairs(ns, i),
    }
}

/// The bindings of the subtree of `i` in document order: node `i` itself
/// when `k < 0`, then the subtrees of its children from the `k`-th.
pub open spec fn gather_from(ns: Seq<SyntaxNode>, i: int, k: int, g: Gather) -> Seq<(Seq<char>, Seq<char>)>
    decreases ns.len() - i, ns[i].children@.len() - k,
{
    if i < 0 || i >= ns.len() {
        Seq::empty()
    } else if k < 0 {
        node_pairs(ns, i, g) + gather_from(ns, i, 0, g)
    } else if k >= ns[i].children@.len() {
        Seq::empty()
    } else {
        let c = ns[i].children@[k] as int;
        let below = if i < c < ns.len() {
            gather_from(ns, c, -1, g)
        } else {
            Seq::empty()
        };
        below + gather_from(ns, i, k + 1, g)
    }
}

fn push_pair(out: &mut Vec<(String, String)>, local: String, target: String)
    ensures
        pairs_of(final(out)@) == pairs_of(old(out)@) + seq![(local@, target@)],
{
    let ghost before = out@;
    let ghost lv = local@;
    let ghost tv = target@;
    out.push((local, target));
    assert(pairs_of(out@) =~= pairs_of(before) + seq![(lv, tv)]);
}

fn qualify(module: &str, name: &str) -> (r: String)
    ensures
        r@ == qualified(module@, name@),
{
    let mut s = owned(module);
    push_char(&mut s, '.');
    push_text(&mut s, name);
    s
}

fn text(t: &SyntaxTree, i: usize) -> (r: String)
    requires
        i < t.view_nodes().len(),
    ensures
        r@ == text_of(t.view_nodes(), i as int),
{
    t.node(i).text.clone()
}

fn kind(t: &SyntaxTree, i: usize, k: &str) -> (r: bool)
    requires
        i < t.view_nodes().len(),
    ensures
        r == kind_is(t.view_nodes(), i as int, k@),
{
    str_eq(t.node(i).kind.as_str(), k)
}

fn pq_alias_at(t: &SyntaxTree, i: usize, out: &mut Vec<(String, String)>)
    requires
        i < t.view_nodes().len(),
    ensures
        pairs_of(final(out)@) == pairs_of(old(out)@) + pq_alias_pairs(t.view_nodes(), i as int),
{
    let ghost e0 = pairs_of(out@);
    if !kind(t, i, "import_spec") {
        assert(e0 + Seq::<(Seq<char>, Seq<char>)>::empty() =~= e0);
        return;
    }
    let pn = match child_by_field(t, i, "path") {
        Some(x) => x,
        None => {
            assert(e0 + Seq::<(Seq<char>, Seq<char>)>::empty() =~= e0);
            return;
        },
    };
    let path = unquote_js(t.node(pn).text.as_str());
    let family = match go_pq_signature_family(path.as_str()) {
        Some(f) => f,
        None => {
            assert(e0 + Seq::<(Seq<char>, Seq<char>)>::empty() =~= e0);
            return;
        },
    };
    let local = match child_by_field(t, i, "name") {
        Some(n) => text(t, n),
        None => string_from_chars(&last_segment_of(&chars_of(path.as_str()), &one_char('/'))),
    };
    push_pair(out, local, owned(family));
}

fn python_name_at(t: &SyntaxTree, c: usize, out: &mut Vec<(String, String)>)
    requires
        c < t.view_nodes().len(),
    ensures
        pairs_of(final(out)@) == pairs_of(old(out)@) + python_name_pairs(t.view_nodes(), c as int),
{
    let ghost e0 = pairs_of(out@);
    if kind(t, c, "dotted_name") || kind(t, c, "identifier") {
        let n = text(t, c);
        let q = qualify("hashlib", n.as_str());
        push_pair(out, n, q);
    } else if kind(t, c, "aliased_import") {
        match (child_by_field(t, c, "name"), child_by_field(t, c, "alias")) {
            (Some(o), Some(a)) => {
                let q = qualify("hashlib", t.node(o).text.as_str());
                push_pair(out, text(t, a), q);
            },
            _ => {
                assert(e0 + Seq::<(Seq<char>, Seq<char>)>::empty() =~= e0);
            },
        }
    } else {
        assert(e0 + Seq::<(Seq<char>, Seq<char>)>::empty() =~= e0);
    }
}

fn python_bare_at(t: &SyntaxTree, i: usize, out: &mut Vec<(String, String)>)
    requires
        i < t.view_nodes().len(),
    ensures
        pairs_of(final(out)@) == pairs_of(old(out)@) + python_bare_pairs(t.view_nodes(), i as int),
{
    proof {
        use_type_invariant(t);
        assert(node_wf(t.view_nodes(), i as int));
    }
    let ghost ns = t.view_nodes();
    let ghost e0 = pairs_of(out@);
    let is_hashlib = kind(t, i, "import_from_statement") && match child_by_field(t, i, "module_name") {
        Some(m) => str_eq(t.node(m).text.as_str(), "hashlib"),
        None => false,
    };
    if !is_hashlib {
        assert(e0 + Seq::<(Seq<char>, Seq<char>)>::empty() =~= e0);
        return;
    }
    let node = t.node(i);
    let mut k: usize = 0;
    assert(e0 + python_names_from(ns, i as int, 0) =~= e0 + python_bare_pairs(ns, i as int));
    while k < node.fields.len()
        invariant
            *node == ns[i as int],
            ns == t.view_nodes(),
            i < ns.len(),
            node_wf(ns, i as int),
            k <= node.fields@.len(),
            e0 + python_bare_pairs(ns, i as int) == pairs_of(out@) + python_names_from(ns, i as int, k as int),
        decreases node.fields.len() - k,
    {
        let ghost before = pairs_of(out@);
        if str_eq(node.fields[k].0.as_str(), "name") {
            python_name_at(t, node.fields[k].1, out);
            assert(before + python_names_from(ns, i as int, k as int) =~= pairs_of(out@) + python_names_from(
                ns,
                i as int,
                k + 1,
            ));
        }
        k = k + 1;
    }
    assert(pairs_of(out@) + python_names_from(ns, i as int, k as int) =~= pairs_of(out@));
}

fn required_module(t: &SyntaxTree, call: usize) -> (r: Option<&'static str>)
    requires
        call < t.view_nodes().len(),
    ensures
        match r {
            Some(m) => required_prefix(t.view_nodes(), call as int) == Some(m@),
            None => required_prefix(t.view_nodes(), call as int) is None,
        },
{
    proof {
        use_type_invariant(t);
    }
    let a = match child_by_field(t, call, "arguments") {
        Some(x) => x,
        None => {
            return None;
        },
    };
    let node = t.node(a);
    if node.named_children.len() == 0 {
        return None;
    }
    proof {
        assert(node_wf(t.view_nodes(), a as int));
    }
    js_bare_import_module_prefix(unquote_js(t.node(node.named_children[0]).text.as_str()).as_str())
}

fn pattern_at(t: &SyntaxTree, p: usize, module: &str, out: &mut Vec<(String, String)>)
    requires
        p < t.view_nodes().len(),
    ensures
        pairs_of(final(out)@) == pairs_of(old(out)@) + pattern_pairs(t.view_nodes(), p as int, module@, 0),
{
    proof {
        use_type_invariant(t);
        assert(node_wf(t.view_nodes(), p as int));
    }
    let ghost ns = t.view_nodes();
    let ghost e0 = pairs_of(out@);
    let node = t.node(p);
    let mut k: usize = 0;
    while k < node.named_children.len()
        invariant
            *node == ns[p as int],
            ns == t.view_nodes(),
            p < ns.len(),
            node_wf(ns, p as int),
            k <= node.named_children@.len(),
            e0 + pattern_pairs(ns, p as int, module@, 0) == pairs_of(out@) + pattern_pairs(ns, p as int, module@, k as int),
        decreases node.named_children.len() - k,
    {
        let e = node.named_children[k];
        let ghost before = pairs_of(out@);
        if kind(t, e, "shorthand_property_identifier_pattern") {
            let n = text(t, e);
            let q = qualify(module, n.as_str());
            push_pair(out, n, q);
        } else if kind(t, e, "pair_pattern") {
            match (child_by_field(t, e, "key"), child_by_field(t, e, "value")) {
                (Some(key), Some(v)) => {
                    let q = qualify(module, t.node(key).text.as_str());
                    push_pair(out, text(t, v), q);
                },
                _ => {},
            }
        }
        assert(before + pattern_pairs(ns, p as int, module@, k as int) =~= pairs_of(out@) + pattern_pairs(
            ns,
            p as int,
            module@,
            k + 1,
        ));
        k = k + 1;
    }
    assert(pairs_of(out@) + pattern_pairs(ns, p as int, module@, k as int) =~= pairs_of(out@));
}

fn require_at(t: &SyntaxTree, i: usize, out: &mut Vec<(String, String)>)
    requires
        i < t.view_nodes().len(),
    ensures
        pairs_of(final(out)@) == pairs_of(old(out)@) + require_pairs(t.view_nodes(), i as int),
{
    let ghost e0 = pairs_of(out@);
    assert(e0 + Seq::<(Seq<char>, Seq<char>)>::empty() =~= e0);
    let (n, v) = match (child_by_field(t, i, "name"), child_by_field(t, i, "value")) {
        (Some(n), Some(v)) => (n, v),
        _ => {
            return;
        },
    };
    if !kind(t, n, "object_pattern") || !kind(t, v, "call_expression") {
        return;
    }
    let is_require = match child_by_field(t, v, "function") {
        Some(f) => str_eq(t.node(f).text.as_str(), "require"),
        None => false,
    };
    if !is_require {
        return;
    }
    match required_module(t, v) {
        Some(module) => pattern_at(t, n, module, out),
        None => {},
    }
}

fn specifier_at(t: &SyntaxTree, s: usize, module: &str, out: &mut Vec<(String, String)>)
    requires
        s < t.view_nodes().len(),
    ensures
        pairs_of(final(out)@) == pairs_of(old(out)@) + specifier_pairs(t.view_nodes(), s as int, module@),
{
    let ghost e0 = pairs_of(out@);
    match child_by_field(t, s, "name") {
        Some(o) => {
            let original = text(t, o);
            let local = match child_by_field(t, s, "alias") {
                Some(a) => text(t, a),
                None => original.clone(),
            };
            let q = qualify(module, original.as_str());
            push_pair(out, local, q);
        },
        None => {
            assert(e0 + Seq::<(Seq<char>, Seq<char>)>::empty() =~= e0);
        },
    }
}

fn named_imports_at(t: &SyntaxTree, ni: usize, module: &str, out: &mut Vec<(String, String)>)
    requires
        ni < t.view_nodes().len(),
    ensures
        pairs_of(final(out)@) == pairs_of(old(out)@) + named_imports_pairs(t.view_nodes(), ni as int, module@, 0),
{
    proof {
        use_type_invariant(t);
        assert(node_wf(t.view_nodes(), ni as int));
    }
    let ghost ns = t.view_nodes();
    let ghost e0 = pairs_of(out@);
    let node = t.node(ni);
    let mut k: usize = 0;
    while k < node.named_children.len()
        invariant
            *node == ns[ni as int],
            ns == t.view_nodes(),
            ni < ns.len(),
            node_wf(ns, ni as int),
            k <= node.named_children@.len(),
            e0 + named_imports_pairs(ns, ni as int, module@, 0) == pairs_of(out@) + named_imports_pairs(
                ns,
                ni as int,
                module@,
                k as int,
            ),
        decreases node.named_children.len() - k,
    {
        let c = node.named_children[k];
        let ghost before = pairs_of(out@);
        if kind(t, c, "import_specifier") {
            specifier_at(t, c, module, out);
        }
        assert(before + named_imports_pairs(ns, ni as int, module@, k as int) =~= pairs_of(out@)
            + named_imports_pairs(ns, ni as int, module@, k + 1));
        k = k + 1;
    }
    assert(pairs_of(out@) + named_imports_pairs(ns, ni as int, module@, k as int) =~= pairs_of(out@));
}

fn clause_at(t: &SyntaxTree, c: usize, module: &str, out: &mut Vec<(String, String)>)
    requires
        c < t.view_nodes().len(),
    ensures
        pairs_of(final(out)@) == pairs_of(old(out)@) + clause_pairs(t.view_nodes(), c as int, module@, 0),
{
    proof {
        use_type_invariant(t);
        assert(node_wf(t.view_nodes(), c as int));
    }
    let ghost ns = t.view_nodes();
    let ghost e0 = pairs_of(out@);
    let node = t.node(c);
    let mut k: usize = 0;
    while k < node.named_children.len()
        invariant
            *node == ns[c as int],
            ns == t.view_nodes(),
            c < ns.len(),
            node_wf(ns, c as int),
            k <= node.named_children@.len(),
            e0 + clause_pairs(ns, c as int, module@, 0) == pairs_of(out@) + clause_pairs(ns, c as int, module@, k as int),
        decreases node.named_children.len() - k,
    {
        let x = node.named_children[k];
        let ghost before = pairs_of(out@);
        if kind(t, x, "named_imports") {
            named_imports_at(t, x, module, out);
        }
        assert(before + clause_pairs(ns, c as int, module@, k as int) =~= pairs_of(out@) + clause_pairs(
            ns,
            c as int,
            module@,
            k + 1,
        ));
        k = k + 1;
    }
    assert(pairs_of(out@) + clause_pairs(ns, c as int, module@, k as int) =~= pairs_of(out@));
}

fn import_at(t: &SyntaxTree, i: usize, out: &mut Vec<(String, String)>)
    requires
        i < t.view_nodes().len(),
    ensures
        pairs_of(final(out)@) == pairs_of(old(out)@) + import_pairs(t.view_nodes(), i as int),
{
    proof {
        use_type_invariant(t);
        assert(node_wf(t.view_nodes(), i as int));
    }
    let ghost ns = t.view_nodes();
    let ghost e0 = pairs_of(out@);
    assert(e0 + Seq::<(Seq<char>, Seq<char>)>::empty() =~= e0);
    let s = match child_by_field(t, i, "source") {
        Some(x) => x,
        None => {
            return;
        },
    };
    let module = match js_bare_import_module_prefix(unquote_js(t.node(s).text.as_str()).as_str()) {
        Some(m) => m,
        None => {
            return;
        },
    };
    let node = t.node(i);
    let mut k: usize = 0;
    while k < node.named_children.len()
        invariant
            *node == ns[i as int],
            ns == t.view_nodes(),
            i < ns.len(),
            node_wf(ns, i as int),
            k <= node.named_children@.len(),
            e0 + import_pairs(ns, i as int) == pairs_of(out@) + import_clauses_pairs(ns, i as int, module@, k as int),
        decreases node.named_children.len() - k,
    {
        let x = node.named_children[k];
        let ghost before = pairs_of(out@);
        if kind(t, x, "import_clause") {
            clause_at(t, x, module, out);
        }
        assert(before + import_clauses_pairs(ns, i as int, module@, k as int) =~= pairs_of(out@)
            + import_clauses_pairs(ns, i as int, module@, k + 1));
        k = k + 1;
    }
    assert(pairs_of(out@) + import_clauses_pairs(ns, i as int, module@, k as int) =~= pairs_of(out@));
}

fn node_pairs_at(t: &SyntaxTree, i: usize, g: &Gather, out: &mut Vec<(String, String)>)
    requires
        i < t.view_nodes().len(),
    ensures
        pairs_of(final(out)@) == pairs_of(old(out)@) + node_pairs(t.view_nodes(), i as int, *g),
{
    match g {
        Gather::GoPqAliases => pq_alias_at(t, i, out),
        Gather::PythonBare => python_bare_at(t, i, out),
        Gather::JsBare => {
            let ghost e0 = pairs_of(out@);
            if kind(t, i, "variable_declarator") {
                require_at(t, i, out);
            } else if kind(t, i, "import_statement") {
                import_at(t, i, out);
            } else {
                assert(e0 + Seq::<(Seq<char>, Seq<char>)>::empty() =~= e0);
            }
        },
    }
}

/// Gather the bindings `g` collects in the subtree of node `i`, in
/// document order.
pub fn gather(t: &SyntaxTree, i: usize, g: &Gather, out: &mut Vec<(String, String)>)
    requires
        i < t.view_nodes().len(),
    ensures
        pairs_of(final(out)@) == pairs_of(old(out)@) + gather_from(t.view_nodes(), i as int, -1, *g),
    decreases t.view_nodes().len() - i,
{
    proof {
        use_type_invariant(t);
        assert(node_wf(t.view_nodes(), i as int));
    }
    let ghost ns = t.view_nodes();
    let ghost e0 = pairs_of(out@);
    node_pairs_at(t, i, g, out);
    let node = t.node(i);
    let mut k: usize = 0;
    while k < node.children.len()
        invariant
            *node == ns[i as int],
            ns == t.view_nodes(),
            i < ns.len(),
            node_wf(ns, i as int),
            k <= node.children@.len(),
            e0 + gather_from(ns, i as int, -1, *g) == pairs_of(out@) + gather_from(ns, i as int, k as int, *g),
        decreases node.children.len() - k,
    {
        let c = node.children[k];
        let ghost before = pairs_of(out@);
        gather(t, c, g, out);
        proof {
            let below = gather_from(ns, c as int, -1, *g);
            let rest = gather_from(ns, i as int, k + 1, *g);
            assert(gather_from(ns, i as int, k as int, *g) == below + rest);
            assert(before + (below + rest) =~= pairs_of(out@) + rest);
        }
        k = k + 1;
    }
    assert(pairs_of(out@) + gather_from(ns, i as int, k as int, *g) =~= pairs_of(out@));
}

// ---------------------------------------------------------------------------
// C / C++ include targets.

pub open spec fn include_delims() -> Seq<char> {
    seq!['<', '>', '"']
}

/// The target of a `#include`, delimiters stripped, when not empty.
pub open spec fn include_target(ns: Seq<SyntaxNode>, n: int) -> Seq<Seq<char>> {
    if !kind_is(ns, n, "preproc_include"@) {
        Seq::empty()
    } else {
        match field_of(ns, n, "path"@) {
            Some(p) => {
                let s = trim_set(text_of(ns, p), include_delims());
                if s.len() > 0 {
                    seq![s]
                } else {
                    Seq::empty()
                }
            },
            None => Seq::empty(),
        }
    }
}

/// The include targets among the children of `c`, from the `k`-th.
pub open spec fn includes_in(ns: Seq<SyntaxNode>, c: int, k: int) -> Seq<Seq<char>>
    decreases ns[c].children@.len() - k,
{
    let ch = ns[c].children@;
    if k < 0 || k >= ch.len() {
        Seq::empty()
    } else {
        include_target(ns, ch[k] as int) + includes_in(ns, c, k + 1)
    }
}

/// The include targets at the top level of the file and one level down
/// inside `#if` / `#ifdef` blocks, from the `k`-th child of the root.
pub open spec fn top_includes(ns: Seq<SyntaxNode>, root: int, k: int) -> Seq<Seq<char>>
    decreases ns[root].children@.len() - k,
{
    let ch = ns[root].children@;
    if k < 0 || k >= ch.len() {
        Seq::empty()
    } else {
        let c = ch[k] as int;
        let nested = if is_prefix("preproc_if"@, ns[c].kind@) {
            includes_in(ns, c, 0)
        } else {
            Seq::empty()
        };
        include_target(ns, c) + nested + top_includes(ns, root, k + 1)
    }
}

/// Every include target of a C or C++ file; none for other languages.
pub open spec fn imports_spec(ns: Seq<SyntaxNode>, root: int, language: Language) -> Seq<Seq<char>> {
    if language == Language::C || language == Language::Cpp {
        top_includes(ns, root, 0)
    } else {
        Seq::empty()
    }
}

pub open spec fn strs_of(v: Seq<String>) -> Seq<Seq<char>> {
    v.map_values(|s: String| s@)
}

fn push_include_target(t: &SyntaxTree, n: usize, out: &mut Vec<String>)
    requires
        n < t.view_nodes().len(),
    ensures
        strs_of(final(out)@) == strs_of(old(out)@) + include_target(t.view_nodes(), n as int),
{
    let ghost e0 = strs_of(out@);
    assert(e0 + Seq::<Seq<char>>::empty() =~= e0);
    if !kind(t, n, "preproc_include") {
        return;
    }
    let p = match child_by_field(t, n, "path") {
        Some(p) => p,
        None => {
            return;
        },
    };
    let mut d: Vec<char> = Vec::new();
    d.push('<');
    d.push('>');
    d.push('"');
    assert(d@ =~= include_delims());
    let s = trim_set_chars(&chars_of(t.node(p).text.as_str()), &d);
    if s.len() > 0 {
        let ghost before = out@;
        out.push(string_from_chars(&s));
        assert(strs_of(out@) =~= strs_of(before) + seq![s@]);
    }
}

fn includes_below(t: &SyntaxTree, c: usize, out: &mut Vec<String>)
    requires
        c < t.view_nodes().len(),
    ensures
        strs_of(final(out)@) == strs_of(old(out)@) + includes_in(t.view_nodes(), c as int, 0),
{
    proof {
        use_type_invariant(t);
        assert(node_wf(t.view_nodes(), c as int));
    }
    let ghost ns = t.view_nodes();
    let ghost e0 = strs_of(out@);
    let node = t.node(c);
    let mut k: usize = 0;
    while k < node.children.len()
        invariant
            *node == ns[c as int],
            ns == t.view_nodes(),
            c < ns.len(),
            node_wf(ns, c as int),
            k <= node.children@.len(),
            e0 + includes_in(ns, c as int, 0) == strs_of(out@) + includes_in(ns, c as int, k as int),
        decreases node.children.len() - k,
    {
        let ghost before = strs_of(out@);
        push_include_target(t, node.children[k], out);
        assert(before + includes_in(ns, c as int, k as int) =~= strs_of(out@) + includes_in(ns, c as int, k + 1));
        k = k + 1;
    }
    assert(strs_of(out@) + includes_in(ns, c as int, k as int) =~= strs_of(out@));
}

/// Every `#include` target of a C or C++ file rooted at `root`, verbatim
/// but for its delimiters; nothing for other languages.
pub fn collect_imports(t: &SyntaxTree, root: usize, language: Language) -> (r: Vec<String>)
    requires
        root < t.view_nodes().len(),
    ensures
        strs_of(r@) == imports_spec(t.view_nodes(), root as int, language),
{
    proof {
        use_type_invariant(t);
        assert(node_wf(t.view_nodes(), root as int));
    }
    let ghost ns = t.view_nodes();
    let mut out: Vec<String> = Vec::new();
    if !(language == Language::C || language == Language::Cpp) {
        assert(strs_of(out@) =~= Seq::<Seq<char>>::empty());
        return out;
    }
    let node = t.node(root);
    let mut k: usize = 0;
    assert(strs_of(out@) =~= Seq::<Seq<char>>::empty());
    while k < node.children.len()
        invariant
            *node == ns[root as int],
            ns == t.view_nodes(),
            root < ns.len(),
            node_wf(ns, root as int),
            k <= node.children@.len(),
            top_includes(ns, root as int, 0) == strs_of(out@) + top_includes(ns, root as int, k as int),
        decreases node.children.len() - k,
    {
        let c = node.children[k];
        let ghost before = strs_of(out@);
        push_include_target(t, c, &mut out);
        let ghost mid = strs_of(out@);
        if str_starts_with(t.node(c).kind.as_str(), "preproc_if") {
            includes_below(t, c, &mut out);
        } else {
            assert(strs_of(out@) =~= mid + Seq::<Seq<char>>::empty());
        }
        assert(before + top_includes(ns, root as int, k as int) =~= strs_of(out@) + top_includes(
            ns,
            root as int,
            k + 1,
        ));
        k = k + 1;
    }
    assert(strs_of(out@) + top_includes(ns, root as int, k as int) =~= strs_of(out@));
    out
}

/// The bare-name bindings of a file in the languages that have them, in
/// document order.
pub fn collect_bare_bindings(t: &SyntaxTree, root: usize, language: Language) -> (r: Vec<(String, String)>)
    requires
        root < t.view_nodes().len(),
    ensures
        pairs_of(r@) == (match language {
            Language::JavaScript | Language::TypeScript => gather_from(t.view_nodes(), root as int, -1, Gather::JsBare),
            Language::Python => gather_from(t.view_nodes(), root as int, -1, Gather::PythonBare),
            _ => Seq::empty(),
        }),
{
    let mut out: Vec<(String, String)> = Vec::new();
    assert(pairs_of(out@) =~= Seq::<(Seq<char>, Seq<char>)>::empty());
    match language {
        Language::JavaScript | Language::TypeScript => gather(t, root, &Gather::JsBare, &mut out),
        Language::Python => gather(t, root, &Gather::PythonBare, &mut out),
        _ => {},
    }
    proof {
        assert(Seq::<(Seq<char>, Seq<char>)>::empty() + gather_from(t.view_nodes(), root as int, -1, Gather::JsBare)
            =~= gather_from(t.view_nodes(), root as int, -1, Gather::JsBare));
        assert(Seq::<(Seq<char>, Seq<char>)>::empty() + gather_from(t.view_nodes(), root as int, -1, Gather::PythonBare)
            =~= gather_from(t.view_nodes(), root as int, -1, Gather::PythonBare));
    }
    out
}

/// The local aliases of `circl` post-quantum signature packages a Go file
/// imports, with their families, in document order.
pub fn collect_go_pq_aliases(t: &SyntaxTree, root: usize) -> (r: Vec<(String, String)>)
    requires
        root < t.view_nodes().len(),
    ensures
        pairs_of(r@) == gather_from(t.view_nodes(), root as int, -1, Gather::GoPqAliases),
{
    let mut out: Vec<(String, String)> = Vec::new();
    assert(pairs_of(out@) =~= Seq::<(Seq<char>, Seq<char>)>::empty());
    gather(t, root, &Gather::GoPqAliases, &mut out);
    assert(Seq::<(Seq<char>, Seq<char>)>::empty() + gather_from(t.view_nodes(), root as int, -1, Gather::GoPqAliases)
        =~= gather_from(t.view_nodes(), root as int, -1, Gather::GoPqAliases));
    out
}

} // verus!
