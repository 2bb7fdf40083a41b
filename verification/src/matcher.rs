//! Recognising crypto api sites in a syntax tree: a call, a Java method
//! invocation, a constructor, or a Java enum-constant reference, resolved
//! through the callee tables to a logical api with its argument captures and
//! site context; and the walk that visits every node of a file.
use vstd::prelude::*;
use crate::ancestry::{ancestor_frames, ancestor_frames_spec, ancestors, callee_of, field_text_of};
use crate::callee::{
    c_callee_spec, go_callee_spec, js_callee_spec, lookup, match_c_callee, match_csharp_callee,
    match_csharp_ctor, match_go_callee, match_java_callee, match_java_ctor, match_js_callee,
    match_python_callee, match_view, plain_spec, spec_lookup,
};
use crate::extract::{ArgMap, ArgVal, ArgValue, RawMatch, RawView, insert_entry, nat_digits, digits_of};
use crate::findings::SiteContext;
use crate::populate::{
    insert_entries, java_captures, populate_args, populate_captures, populate_java_args,
};
use crate::rules::Language;
use crate::rustpath::{match_rust_callee, rust_callee_spec};
use crate::sitecontext::{
    asserted_to_fail, classify_site_context, is_call_asserted_to_fail, site_chain, site_context_of,
};
use crate::syntax::{
    SyntaxNode, SyntaxTree, child_by_field, field_of, kind_is, node_wf, nth_real, nth_real_arg,
    text_of, tree_wf,
};
use crate::tables::{
    csharp_callee_table, csharp_ctor_table, java_callee_table, java_ctor_table,
    java_enum_class_apis, java_enum_class_table, pairs_view, python_callee_table,
};
use crate::text::{
    chars_of, chars_starts_with, is_prefix, owned, push_char, push_text, str_eq, str_starts_with,
};

verus! {

// ---------------------------------------------------------------------------
// Name bindings.

/// Name bindings as values.
pub open spec fn pairs_of(b: Seq<(String, String)>) -> Seq<(Seq<char>, Seq<char>)> {
    b.map_values(|p: (String, String)| (p.0@, p.1@))
}

/// The value of the last binding of `key`: a later binding of a name
/// replaces an earlier one.
pub open spec fn binding_of(b: Seq<(Seq<char>, Seq<char>)>, key: Seq<char>) -> Option<Seq<char>>
    decreases b.len(),
{
    if b.len() == 0 {
        None
    } else if b.last().0 == key {
        Some(b.last().1)
    } else {
        binding_of(b.drop_last(), key)
    }
}

/// The value of the last binding of `key`.
pub fn lookup_binding(b: &Vec<(String, String)>, key: &str) -> (r: Option<String>)
    ensures
        match r {
            Some(v) => binding_of(pairs_of(b@), key@) == Some(v@),
            None => binding_of(pairs_of(b@), key@) is None,
        },
{
    let mut i: usize = b.len();
    assert(pairs_of(b@).subrange(0, b@.len() as int) =~= pairs_of(b@));
    while i > 0
        invariant
            i <= b@.len(),
            binding_of(pairs_of(b@), key@) == binding_of(pairs_of(b@).subrange(0, i as int), key@),
        decreases i,
    {
        let ghost pre = pairs_of(b@).subrange(0, i as int);
        assert(pre.drop_last() =~= pairs_of(b@).subrange(0, i - 1));
        assert(pre.last() == (b@[i - 1].0@, b@[i - 1].1@));
        if str_eq(b[i - 1].0.as_str(), key) {
            return Some(b[i - 1].1.clone());
        }
        i = i - 1;
    }
    None
}

// ---------------------------------------------------------------------------
// Hybrid post-quantum signatures next to a classical one (Go).

/// The first ancestor of `call` that is a function or method declaration.
pub open spec fn scope_from(ns: Seq<SyntaxNode>, anc: Seq<int>, k: int) -> Option<int>
    decreases anc.len() - k,
{
    if k < 0 || k >= anc.len() {
        None
    } else if kind_is(ns, anc[k], "function_declaration"@) || kind_is(ns, anc[k], "method_declaration"@) {
        Some(anc[k])
    } else {
        scope_from(ns, anc, k + 1)
    }
}

/// A call other than `call` of a `Sign*` / `Verify*` method on a package
/// alias bound to a post-quantum signature family: that family.
pub open spec fn pq_call_family(
    ns: Seq<SyntaxNode>,
    i: int,
    call: int,
    pq: Seq<(Seq<char>, Seq<char>)>,
) -> Option<Seq<char>> {
    if i == call || !kind_is(ns, i, "call_expression"@) {
        None
    } else {
        match field_of(ns, i, "function"@) {
            Some(f) => if !kind_is(ns, f, "selector_expression"@) {
                None
            } else {
                match field_of(ns, f, "operand"@) {
                    Some(o) => match binding_of(pq, text_of(ns, o)) {
                        Some(family) => match field_of(ns, f, "field"@) {
                            Some(m) => if is_prefix("Sign"@, text_of(ns, m)) || is_prefix(
                                "Verify"@,
                                text_of(ns, m),
                            ) {
                                Some(family)
                            } else {
                                None
                            },
                            None => None,
                        },
                        None => None,
                    },
                    None => None,
                }
            },
            None => None,
        }
    }
}

/// The first such call, in document order, in the subtree of `i`: node `i`
/// itself when `k < 0`, then the subtrees of its children from the `k`-th.
pub open spec fn pq_call_from(
    ns: Seq<SyntaxNode>,
    i: int,
    k: int,
    call: int,
    pq: Seq<(Seq<char>, Seq<char>)>,
) -> Option<(Seq<char>, u32)>
    decreases ns.len() - i, ns[i].children@.len() - k,
{
    if i < 0 || i >= ns.len() {
        None
    } else if k < 0 {
        match pq_call_family(ns, i, call, pq) {
            Some(f) => Some((f, ns[i].line)),
            None => pq_call_from(ns, i, 0, call, pq),
        }
    } else if k >= ns[i].children@.len() {
        None
    } else {
        let c = ns[i].children@[k] as int;
        if i < c < ns.len() {
            match pq_call_from(ns, c, -1, call, pq) {
                Some(x) => Some(x),
                None => pq_call_from(ns, i, k + 1, call, pq),
            }
        } else {
            pq_call_from(ns, i, k + 1, call, pq)
        }
    }
}

/// The post-quantum family and line of a signature call in the same
/// function as `call`, when the file imports one.
pub open spec fn pq_colocation(ns: Seq<SyntaxNode>, call: int, pq: Seq<(Seq<char>, Seq<char>)>) -> Option<
    (Seq<char>, u32),
> {
    if pq.len() == 0 {
        None
    } else {
        match scope_from(ns, ancestors(ns, call), 0) {
            Some(s) => pq_call_from(ns, s, -1, call, pq),
            None => None,
        }
    }
}

/// The note an ed25519 / ECDSA operation site carries.
pub open spec fn pq_note(ns: Seq<SyntaxNode>, call: int, pq: Seq<(Seq<char>, Seq<char>)>) -> Seq<char> {
    match pq_colocation(ns, call, pq) {
        Some((family, line)) => " This function also calls "@ + family + " at line "@ + nat_digits(
            line as nat,
        ) + " — the classical component alone is insufficient to forge a signature accepted by this code."@,
        None => Seq::empty(),
    }
}

proof fn lemma_scope_from_in(ns: Seq<SyntaxNode>, anc: Seq<int>, k: int)
    requires
        0 <= k,
    ensures
        scope_from(ns, anc, k) matches Some(s) ==> exists|j: int| 0 <= j < anc.len() && anc[j] == s,
    decreases anc.len() - k,
{
    if k < anc.len() && !(kind_is(ns, anc[k], "function_declaration"@) || kind_is(ns, anc[k], "method_declaration"@)) {
        lemma_scope_from_in(ns, anc, k + 1);
    }
}

fn pq_family_at(t: &SyntaxTree, i: usize, call: usize, pq: &Vec<(String, String)>) -> (r: Option<String>)
    requires
        i < t.view_nodes().len(),
    ensures
        match r {
            Some(f) => pq_call_family(t.view_nodes(), i as int, call as int, pairs_of(pq@)) == Some(f@),
            None => pq_call_family(t.view_nodes(), i as int, call as int, pairs_of(pq@)) is None,
        },
{
    if i == call || !str_eq(t.node(i).kind.as_str(), "call_expression") {
        return None;
    }
    let f = match child_by_field(t, i, "function") {
        Some(f) => f,
        None => {
            return None;
        },
    };
    if !str_eq(t.node(f).kind.as_str(), "selector_expression") {
        return None;
    }
    let o = match child_by_field(t, f, "operand") {
        Some(o) => o,
        None => {
            return None;
        },
    };
    let family = match lookup_binding(pq, t.node(o).text.as_str()) {
        Some(x) => x,
        None => {
            return None;
        },
    };
    let m = match child_by_field(t, f, "field") {
        Some(m) => m,
        None => {
            return None;
        },
    };
    let method = t.node(m).text.as_str();
    if str_starts_with(method, "Sign") || str_starts_with(method, "Verify") {
        Some(family)
    } else {
        None
    }
}

fn find_pq_call(t: &SyntaxTree, i: usize, call: usize, pq: &Vec<(String, String)>) -> (r: Option<(String, u32)>)
    requires
        i < t.view_nodes().len(),
    ensures
        match r {
            Some((f, l)) => pq_call_from(t.view_nodes(), i as int, -1, call as int, pairs_of(pq@)) == Some((f@, l)),
            None => pq_call_from(t.view_nodes(), i as int, -1, call as int, pairs_of(pq@)) is None,
        },
    decreases t.view_nodes().len() - i,
{
    proof {
        use_type_invariant(t);
        assert(node_wf(t.view_nodes(), i as int));
    }
    let ghost ns = t.view_nodes();
    if let Some(f) = pq_family_at(t, i, call, pq) {
        return Some((f, t.node(i).line));
    }
    let node = t.node(i);
    let mut k: usize = 0;
    while k < node.children.len()
        invariant
            *node == ns[i as int],
            ns == t.view_nodes(),
            i < ns.len(),
            node_wf(ns, i as int),
            k <= node.children@.len(),
            pq_call_from(ns, i as int, -1, call as int, pairs_of(pq@)) == pq_call_from(ns, i as int, k as int, call as int, pairs_of(pq@)),
        decreases node.children.len() - k,
    {
        let c = node.children[k];
        match find_pq_call(t, c, call, pq) {
            Some(x) => {
                return Some(x);
            },
            None => {},
        }
        k = k + 1;
    }
    None
}

/// Does the function around `call` also make a post-quantum signature call?
/// Its family and line.
pub fn find_go_pq_colocation(t: &SyntaxTree, call: usize, pq: &Vec<(String, String)>) -> (r: Option<(String, u32)>)
    requires
        call < t.view_nodes().len(),
    ensures
        match r {
            Some((f, l)) => pq_colocation(t.view_nodes(), call as int, pairs_of(pq@)) == Some((f@, l)),
            None => pq_colocation(t.view_nodes(), call as int, pairs_of(pq@)) is None,
        },
{
    proof {
        use_type_invariant(t);
    }
    let ghost ns = t.view_nodes();
    if pq.len() == 0 {
        return None;
    }
    let mut scope: usize = call;
    let ghost anc = ancestors(ns, call as int);
    let ghost mut k: int = 0;
    loop
        invariant
            ns == t.view_nodes(),
            tree_wf(ns),
            scope < ns.len(),
            0 <= k <= anc.len(),
            anc == ancestors(ns, call as int),
            ancestors(ns, scope as int) == anc.subrange(k, anc.len() as int),
            scope_from(ns, anc, 0) == scope_from(ns, anc, k),
            pairs_of(pq@).len() > 0,
        decreases scope,
    {
        proof {
            assert(node_wf(ns, scope as int));
        }
        let p = match t.node(scope).parent {
            Some(p) => p,
            None => {
                proof {
                    assert(anc.subrange(k, anc.len() as int).len() == 0);
                }
                return None;
            },
        };
        proof {
            let s = ancestors(ns, scope as int);
            assert(s == seq![p as int] + ancestors(ns, p as int));
            assert(s[0] == p as int);
            assert(s.len() > 0);
            assert(k < anc.len());
            assert(s[0] == anc[k]);
            assert(anc.subrange(k + 1, anc.len() as int) =~= s.drop_first());
            assert(s.drop_first() =~= ancestors(ns, p as int));
        }
        let kind = t.node(p).kind.as_str();
        if str_eq(kind, "function_declaration") || str_eq(kind, "method_declaration") {
            assert(scope_from(ns, anc, k) == Some(p as int));
            assert(pq_colocation(ns, call as int, pairs_of(pq@)) == pq_call_from(ns, p as int, -1, call as int, pairs_of(pq@)));
            return find_pq_call(t, p, call, pq);
        }
        scope = p;
        proof {
            k = k + 1;
        }
    }
}

fn pq_note_text(t: &SyntaxTree, call: usize, pq: &Vec<(String, String)>) -> (r: String)
    requires
        call < t.view_nodes().len(),
    ensures
        r@ == pq_note(t.view_nodes(), call as int, pairs_of(pq@)),
{
    match find_go_pq_colocation(t, call, pq) {
        Some((family, line)) => {
            let mut s = String::new();
            push_text(&mut s, " This function also calls ");
            push_text(&mut s, family.as_str());
            push_text(&mut s, " at line ");
            let ds = digits_of(line as u64);
            let ghost pre = s@;
            let mut i: usize = 0;
            while i < ds.len()
                invariant
                    i <= ds@.len(),
                    s@ == pre + ds@.subrange(0, i as int),
                decreases ds.len() - i,
            {
                push_char(&mut s, ds[i]);
                i = i + 1;
                assert(s@ =~= pre + ds@.subrange(0, i as int));
            }
            assert(ds@.subrange(0, ds@.len() as int) =~= ds@);
            push_text(
                &mut s,
                " — the classical component alone is insufficient to forge a signature accepted by this code.",
            );
            s
        },
        None => String::new(),
    }
}

// ---------------------------------------------------------------------------
// Recognising one site.

pub open spec fn site_of(
    ns: Seq<SyntaxNode>,
    node: int,
    api: Seq<char>,
    args: Seq<(Seq<char>, ArgVal)>,
    symbol: Seq<char>,
    site_context: SiteContext,
) -> RawView {
    RawView {
        api,
        args,
        line: ns[node].line,
        offset: ns[node].offset,
        symbol,
        snippet: text_of(ns, node),
        site_context,
    }
}

/// A Java `new Foo(...)` / C# `new Foo(...)` of a known class.
pub open spec fn object_creation_spec(ns: Seq<SyntaxNode>, node: int, language: Language) -> Option<RawView> {
    match field_of(ns, node, "type"@) {
        None => None,
        Some(ty) => {
            let type_text = text_of(ns, ty);
            let m = match language {
                Language::Java => plain_spec(java_ctor_table(), type_text),
                Language::CSharp => plain_spec(csharp_ctor_table(), type_text),
                _ => None,
            };
            match m {
                None => None,
                Some((api, args)) => {
                    let args2 = match field_of(ns, node, "arguments"@) {
                        Some(a) => insert_entries(args, populate_captures(ns, language, api, a)),
                        None => args,
                    };
                    Some(site_of(ns, node, api, args2, type_text, SiteContext::Call))
                },
            }
        },
    }
}

/// A Java `Class.method(...)` invocation of a known method.
pub open spec fn java_method_spec(ns: Seq<SyntaxNode>, node: int) -> Option<RawView> {
    match (field_of(ns, node, "object"@), field_of(ns, node, "name"@), field_of(ns, node, "arguments"@)) {
        (Some(o), Some(n), Some(a)) => {
            let callee = text_of(ns, o).push('.') + text_of(ns, n);
            match plain_spec(java_callee_table(), callee) {
                Some((api, args)) => Some(
                    site_of(ns, node, api, insert_entries(args, java_captures(ns, api, a)), callee, SiteContext::Call),
                ),
                None => None,
            }
        },
        _ => None,
    }
}

/// A Java enum-constant reference such as `SignatureAlgorithm.RS256`.
pub open spec fn java_field_access_spec(ns: Seq<SyntaxNode>, node: int) -> Option<RawView> {
    match (field_of(ns, node, "object"@), field_of(ns, node, "field"@)) {
        (Some(o), Some(f)) => if !kind_is(ns, o, "identifier"@) {
            None
        } else {
            match spec_lookup(java_enum_class_table(), text_of(ns, o)) {
                Some(api) => Some(
                    site_of(
                        ns,
                        node,
                        api,
                        seq![("member"@, ArgVal::Str(text_of(ns, f)))],
                        text_of(ns, node),
                        site_context_of(site_chain(ancestor_frames_spec(ns, node)), Language::Java),
                    ),
                ),
                None => None,
            }
        },
        _ => None,
    }
}

/// The callee a bare identifier resolves to through the file's imports.
pub open spec fn resolved_callee(
    ns: Seq<SyntaxNode>,
    function: int,
    callee: Seq<char>,
    language: Language,
    bindings: Seq<(Seq<char>, Seq<char>)>,
) -> Seq<char> {
    if kind_is(ns, function, "identifier"@) && (language == Language::Python || language
        == Language::JavaScript || language == Language::TypeScript) {
        match binding_of(bindings, callee) {
            Some(b) => b,
            None => callee,
        }
    } else {
        callee
    }
}

/// The callee-table match of a plain call.
pub open spec fn callee_match_spec(language: Language, callee: Seq<char>, resolved: Seq<char>) -> Option<
    (Seq<char>, Seq<(Seq<char>, ArgVal)>),
> {
    match language {
        Language::Go => go_callee_spec(callee),
        Language::Python => plain_spec(python_callee_table(), resolved),
        Language::JavaScript | Language::TypeScript => js_callee_spec(resolved),
        Language::C | Language::Cpp => c_callee_spec(callee),
        Language::Rust => rust_callee_spec(callee),
        Language::Java | Language::CSharp => None,
    }
}

/// The site context of a plain call: C and C++ read it from the first
/// argument, Python and JS/TS mark a call a test asserts to fail.
pub open spec fn call_site_context(ns: Seq<SyntaxNode>, node: int, args: int, language: Language) -> SiteContext {
    match language {
        Language::C | Language::Cpp => match nth_real(ns, args, 0) {
            Some(a) => site_context_of(site_chain(ancestor_frames_spec(ns, a)), language),
            None => SiteContext::Call,
        },
        Language::Python | Language::JavaScript | Language::TypeScript => if asserted_to_fail(
            ancestor_frames_spec(ns, node),
            language,
        ) {
            SiteContext::TestAssertion
        } else {
            SiteContext::Call
        },
        _ => SiteContext::Call,
    }
}

/// ed25519 / ECDSA operation sites in Go carry a note on a post-quantum
/// signature in the same function.
pub open spec fn with_pq_note(
    ns: Seq<SyntaxNode>,
    node: int,
    language: Language,
    api: Seq<char>,
    args: Seq<(Seq<char>, ArgVal)>,
    pq: Seq<(Seq<char>, Seq<char>)>,
) -> Seq<(Seq<char>, ArgVal)> {
    if language == Language::Go && (api == "crypto/ed25519.Op"@ || api == "crypto/ecdsa.Op"@) {
        insert_entry(args, "pq_note"@, ArgVal::Str(pq_note(ns, node, pq)))
    } else {
        args
    }
}

/// A call of a known api in a callee-table language.
pub open spec fn plain_call_spec(
    ns: Seq<SyntaxNode>,
    node: int,
    language: Language,
    bindings: Seq<(Seq<char>, Seq<char>)>,
    pq: Seq<(Seq<char>, Seq<char>)>,
) -> Option<RawView> {
    match (field_of(ns, node, "function"@), field_of(ns, node, "arguments"@)) {
        (Some(f), Some(a)) => {
            let callee = text_of(ns, f);
            match callee_match_spec(language, callee, resolved_callee(ns, f, callee, language, bindings)) {
                Some((api, args)) => {
                    let args2 = with_pq_note(
                        ns,
                        node,
                        language,
                        api,
                        insert_entries(args, populate_captures(ns, language, api, a)),
                        pq,
                    );
                    Some(site_of(ns, node, api, args2, callee, call_site_context(ns, node, a, language)))
                },
                None => None,
            }
        },
        _ => None,
    }
}

/// A C# invocation of a known method.
pub open spec fn csharp_invocation_spec(ns: Seq<SyntaxNode>, node: int, language: Language) -> Option<RawView> {
    match (field_of(ns, node, "function"@), field_of(ns, node, "arguments"@)) {
        (Some(f), Some(a)) => {
            let callee = text_of(ns, f);
            match plain_spec(csharp_callee_table(), callee) {
                Some((api, args)) => Some(
                    site_of(
                        ns,
                        node,
                        api,
                        insert_entries(args, populate_captures(ns, language, api, a)),
                        callee,
                        SiteContext::Call,
                    ),
                ),
                None => None,
            }
        },
        _ => None,
    }
}

/// What a call-like node is, when it calls a known api.
pub open spec fn call_match_spec(
    ns: Seq<SyntaxNode>,
    node: int,
    language: Language,
    bindings: Seq<(Seq<char>, Seq<char>)>,
    pq: Seq<(Seq<char>, Seq<char>)>,
) -> Option<RawView> {
    if kind_is(ns, node, "object_creation_expression"@) {
        object_creation_spec(ns, node, language)
    } else if kind_is(ns, node, "method_invocation"@) {
        java_method_spec(ns, node)
    } else if kind_is(ns, node, "invocation_expression"@) {
        csharp_invocation_spec(ns, node, language)
    } else {
        plain_call_spec(ns, node, language, bindings, pq)
    }
}

pub open spec fn opt_view(r: Option<RawMatch>) -> Option<RawView> {
    match r {
        Some(m) => Some(m@),
        None => None,
    }
}

fn site(
    t: &SyntaxTree,
    node: usize,
    api: String,
    args: ArgMap,
    symbol: String,
    site_context: SiteContext,
) -> (r: RawMatch)
    requires
        node < t.view_nodes().len(),
    ensures
        r@ == site_of(t.view_nodes(), node as int, api@, args@, symbol@, site_context),
{
    let n = t.node(node);
    RawMatch {
        api,
        args,
        line: n.line,
        offset: n.offset,
        symbol,
        snippet: n.text.clone(),
        site_context,
    }
}

/// A Java `new Foo(...)` or C# `new Foo(...)` of a known class.
pub fn match_object_creation(t: &SyntaxTree, node: usize, language: Language) -> (r: Option<RawMatch>)
    requires
        node < t.view_nodes().len(),
    ensures
        opt_view(r) == object_creation_spec(t.view_nodes(), node as int, language),
{
    let ty = match child_by_field(t, node, "type") {
        Some(x) => x,
        None => {
            return None;
        },
    };
    let type_text = t.node(ty).text.clone();
    let m = match language {
        Language::Java => match_java_ctor(type_text.as_str()),
        Language::CSharp => match_csharp_ctor(type_text.as_str()),
        _ => None,
    };
    let (api, mut args) = match m {
        Some(x) => x,
        None => {
            return None;
        },
    };
    if let Some(a) = child_by_field(t, node, "arguments") {
        populate_args(language, api.as_str(), t, a, &mut args);
    }
    Some(site(t, node, api, args, type_text, SiteContext::Call))
}

/// A Java `Class.method(...)` invocation of a known method.
pub fn match_java_method_invocation(t: &SyntaxTree, node: usize) -> (r: Option<RawMatch>)
    requires
        node < t.view_nodes().len(),
    ensures
        opt_view(r) == java_method_spec(t.view_nodes(), node as int),
{
    let o = match child_by_field(t, node, "object") {
        Some(x) => x,
        None => {
            return None;
        },
    };
    let n = match child_by_field(t, node, "name") {
        Some(x) => x,
        None => {
            return None;
        },
    };
    let a = match child_by_field(t, node, "arguments") {
        Some(x) => x,
        None => {
            return None;
        },
    };
    let mut callee = t.node(o).text.clone();
    push_char(&mut callee, '.');
    push_text(&mut callee, t.node(n).text.as_str());
    let (api, mut args) = match match_java_callee(callee.as_str()) {
        Some(x) => x,
        None => {
            return None;
        },
    };
    populate_java_args(api.as_str(), t, a, &mut args);
    Some(site(t, node, api, args, callee, SiteContext::Call))
}

/// A Java enum-constant reference such as `SignatureAlgorithm.RS256` of a
/// known algorithm enum.
pub fn match_java_field_access(t: &SyntaxTree, node: usize) -> (r: Option<RawMatch>)
    requires
        node < t.view_nodes().len(),
    ensures
        opt_view(r) == java_field_access_spec(t.view_nodes(), node as int),
{
    let o = match child_by_field(t, node, "object") {
        Some(x) => x,
        None => {
            return None;
        },
    };
    let f = match child_by_field(t, node, "field") {
        Some(x) => x,
        None => {
            return None;
        },
    };
    if !str_eq(t.node(o).kind.as_str(), "identifier") {
        return None;
    }
    let table = java_enum_class_apis();
    let api = match lookup(&table, t.node(o).text.as_str()) {
        Some(x) => x,
        None => {
            return None;
        },
    };
    let mut args = ArgMap::new();
    args.insert(owned("member"), ArgValue::Str(t.node(f).text.clone()));
    let ctx = classify_site_context(&ancestor_frames(t, node), Language::Java);
    let symbol = t.node(node).text.clone();
    proof {
        assert(args@ =~= seq![("member"@, ArgVal::Str(text_of(t.view_nodes(), f as int)))]);
    }
    Some(site(t, node, owned(api), args, symbol, ctx))
}

fn plain_callee_match(language: Language, callee: &str, resolved: &str) -> (r: Option<(String, ArgMap)>)
    ensures
        match_view(r) == callee_match_spec(language, callee@, resolved@),
{
    match language {
        Language::Go => match_go_callee(callee),
        Language::Python => match_python_callee(resolved),
        Language::JavaScript | Language::TypeScript => match_js_callee(resolved),
        Language::C | Language::Cpp => match_c_callee(callee),
        Language::Rust => match_rust_callee(callee),
        Language::Java | Language::CSharp => None,
    }
}

fn plain_call_context(t: &SyntaxTree, node: usize, args: usize, language: Language) -> (r: SiteContext)
    requires
        node < t.view_nodes().len(),
        args < t.view_nodes().len(),
    ensures
        r == call_site_context(t.view_nodes(), node as int, args as int, language),
{
    match language {
        Language::C | Language::Cpp => match nth_real_arg(t, args, 0) {
            Some(a) => classify_site_context(&ancestor_frames(t, a), language),
            None => SiteContext::Call,
        },
        Language::Python | Language::JavaScript | Language::TypeScript => {
            if is_call_asserted_to_fail(&ancestor_frames(t, node), language) {
                SiteContext::TestAssertion
            } else {
                SiteContext::Call
            }
        },
        _ => SiteContext::Call,
    }
}

fn match_plain_call(
    t: &SyntaxTree,
    node: usize,
    language: Language,
    bindings: &Vec<(String, String)>,
    pq: &Vec<(String, String)>,
) -> (r: Option<RawMatch>)
    requires
        node < t.view_nodes().len(),
    ensures
        opt_view(r) == plain_call_spec(t.view_nodes(), node as int, language, pairs_of(bindings@), pairs_of(pq@)),
{
    let f = match child_by_field(t, node, "function") {
        Some(x) => x,
        None => {
            return None;
        },
    };
    let a = match child_by_field(t, node, "arguments") {
        Some(x) => x,
        None => {
            return None;
        },
    };
    let callee = t.node(f).text.clone();
    let bare = str_eq(t.node(f).kind.as_str(), "identifier") && (language == Language::Python || language
        == Language::JavaScript || language == Language::TypeScript);
    let resolved = if bare {
        match lookup_binding(bindings, callee.as_str()) {
            Some(b) => b,
            None => callee.clone(),
        }
    } else {
        callee.clone()
    };
    let (api, mut args) = match plain_callee_match(language, callee.as_str(), resolved.as_str()) {
        Some(x) => x,
        None => {
            return None;
        },
    };
    populate_args(language, api.as_str(), t, a, &mut args);
    if language == Language::Go && (str_eq(api.as_str(), "crypto/ed25519.Op") || str_eq(
        api.as_str(),
        "crypto/ecdsa.Op",
    )) {
        let note = pq_note_text(t, node, pq);
        args.insert(owned("pq_note"), ArgValue::Str(note));
    }
    let ctx = plain_call_context(t, node, a, language);
    Some(site(t, node, api, args, callee, ctx))
}

fn match_csharp_invocation(t: &SyntaxTree, node: usize, language: Language) -> (r: Option<RawMatch>)
    requires
        node < t.view_nodes().len(),
    ensures
        opt_view(r) == csharp_invocation_spec(t.view_nodes(), node as int, language),
{
    let f = match child_by_field(t, node, "function") {
        Some(x) => x,
        None => {
            return None;
        },
    };
    let a = match child_by_field(t, node, "arguments") {
        Some(x) => x,
        None => {
            return None;
        },
    };
    let callee = t.node(f).text.clone();
    let (api, mut args) = match match_csharp_callee(callee.as_str()) {
        Some(x) => x,
        None => {
            return None;
        },
    };
    populate_args(language, api.as_str(), t, a, &mut args);
    Some(site(t, node, api, args, callee, SiteContext::Call))
}

/// Inspect one call-like node and decide whether it is a known crypto api
/// site. `bindings` maps names the file imported bare to their qualified
/// callee; `pq` maps Go package aliases to post-quantum signature families.
pub fn match_call(
    t: &SyntaxTree,
    node: usize,
    language: Language,
    bindings: &Vec<(String, String)>,
    pq: &Vec<(String, String)>,
) -> (r: Option<RawMatch>)
    requires
        node < t.view_nodes().len(),
    ensures
        opt_view(r) == call_match_spec(t.view_nodes(), node as int, language, pairs_of(bindings@), pairs_of(pq@)),
{
    let kind = t.node(node).kind.as_str();
    if str_eq(kind, "object_creation_expression") {
        match_object_creation(t, node, language)
    } else if str_eq(kind, "method_invocation") {
        match_java_method_invocation(t, node)
    } else if str_eq(kind, "invocation_expression") {
        match_csharp_invocation(t, node, language)
    } else {
        match_plain_call(t, node, language, bindings, pq)
    }
}

} // verus!
