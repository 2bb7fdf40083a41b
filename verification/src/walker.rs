//! The extract walk: every node of a file in document order, to a fixed
//! depth, each offered to the site matchers.
use vstd::prelude::*;
use crate::extract::{RawMatch, RawView};
use crate::matcher::{pairs_of, call_match_spec, java_field_access_spec, match_call, match_java_field_access};
use crate::rules::Language;
use crate::syntax::{SyntaxNode, SyntaxTree, kind_is, node_wf};
use crate::collectors::{
    Gather, collect_bare_bindings, collect_go_pq_aliases, collect_imports, gather_from, imports_spec,
    strs_of,
};
use crate::go_structural::{
    alg_string_literal_spec, alg_switch_spec, curve_preferences_spec, go_string_kind, match_go_alg_string_literal,
    match_go_alg_switch, match_go_curve_preferences, match_go_oqs_construction, match_go_ssh_key_exchanges,
    match_go_tls_min_version, oqs_construction_spec, ssh_key_exchanges_spec, tls_min_version_spec,
};
use crate::tls_groups::{
    bc_named_groups_spec, c_ssl_groups_list_spec, match_bc_named_groups, match_c_ssl_groups_list,
    match_java_set_named_groups, match_java_set_property_named_groups, match_rust_kx_groups,
    match_rust_openmls_ciphersuite, match_rust_post_quantum_provider, openmls_ciphersuite_spec, pq_provider_spec,
    rust_kx_groups_spec, set_named_groups_spec, set_property_named_groups_spec,
};
use crate::text::str_eq;

verus! {

/// How deep the walk descends; deeper nodes are not visited.
pub const MAX_AST_DEPTH: usize = 512;

/// The values of a list of matches.
pub open spec fn views(s: Seq<RawMatch>) -> Seq<RawView> {
    s.map_values(|m: RawMatch| m@)
}

pub open spec fn opt_seq(o: Option<RawView>) -> Seq<RawView> {
    match o {
        Some(v) => seq![v],
        None => Seq::empty(),
    }
}

/// Node kinds that call something: Go, JS/TS, C, C++ and Rust calls,
/// Python calls, Java method invocations, C# invocations, and constructors.
pub open spec fn call_like(ns: Seq<SyntaxNode>, i: int) -> bool {
    ||| kind_is(ns, i, "call_expression"@)
    ||| kind_is(ns, i, "call"@)
    ||| kind_is(ns, i, "method_invocation"@)
    ||| kind_is(ns, i, "invocation_expression"@)
    ||| kind_is(ns, i, "object_creation_expression"@)
}

/// The sites node `i` itself is.
pub open spec fn node_matches(
    ns: Seq<SyntaxNode>,
    i: int,
    language: Language,
    bindings: Seq<(Seq<char>, Seq<char>)>,
    pq: Seq<(Seq<char>, Seq<char>)>,
) -> Seq<RawView> {
    let calls = if call_like(ns, i) {
        opt_seq(call_match_spec(ns, i, language, bindings, pq))
    } else {
        Seq::empty()
    };
    let fields = if language == Language::Java && kind_is(ns, i, "field_access"@) {
        opt_seq(java_field_access_spec(ns, i))
    } else {
        Seq::empty()
    };
    calls + fields + structural_matches(ns, i, language)
}

pub open spec fn when(c: bool, s: Seq<RawView>) -> Seq<RawView> {
    if c {
        s
    } else {
        Seq::empty()
    }
}

/// Java TLS group lists at a method invocation.
#[verifier::opaque]
pub open spec fn java_structural(ns: Seq<SyntaxNode>, i: int, language: Language) -> Seq<RawView> {
    let java_call = language == Language::Java && kind_is(ns, i, "method_invocation"@);
    when(java_call, set_named_groups_spec(ns, i)) + when(java_call, set_property_named_groups_spec(ns, i)) + when(
        java_call,
        bc_named_groups_spec(ns, i),
    )
}

/// OpenSSL group lists at a C or C++ call.
#[verifier::opaque]
pub open spec fn c_structural(ns: Seq<SyntaxNode>, i: int, language: Language) -> Seq<RawView> {
    when(
        (language == Language::C || language == Language::Cpp) && kind_is(ns, i, "call_expression"@),
        c_ssl_groups_list_spec(ns, i),
    )
}

/// Go JOSE algorithm names in switches and registrations.
#[verifier::opaque]
pub open spec fn go_literal_structural(ns: Seq<SyntaxNode>, i: int, language: Language) -> Seq<RawView> {
    let go = language == Language::Go;
    when(go && kind_is(ns, i, "expression_switch_statement"@), alg_switch_spec(ns, i)) + when(
        go && go_string_kind(ns, i),
        alg_string_literal_spec(ns, i),
    )
}

/// Go TLS and SSH config fields and liboqs-go constructions.
#[verifier::opaque]
pub open spec fn go_config_structural(ns: Seq<SyntaxNode>, i: int, language: Language) -> Seq<RawView> {
    let go = language == Language::Go;
    let go_keyed = go && kind_is(ns, i, "keyed_element"@);
    when(go_keyed, curve_preferences_spec(ns, i)) + when(go_keyed, tls_min_version_spec(ns, i)) + when(
        go_keyed,
        ssh_key_exchanges_spec(ns, i),
    ) + when(go && kind_is(ns, i, "composite_literal"@), oqs_construction_spec(ns, i))
}

/// rustls key-exchange group lists, OpenMLS ciphersuites and the rustls
/// post-quantum provider.
#[verifier::opaque]
pub open spec fn rust_structural(ns: Seq<SyntaxNode>, i: int, language: Language) -> Seq<RawView> {
    let rust = language == Language::Rust;
    let rust_path = rust && kind_is(ns, i, "scoped_identifier"@);
    when(
        rust && (kind_is(ns, i, "field_initializer"@) || kind_is(ns, i, "const_item"@) || kind_is(ns, i, "static_item"@)),
        rust_kx_groups_spec(ns, i),
    ) + when(rust_path, openmls_ciphersuite_spec(ns, i)) + when(rust_path, pq_provider_spec(ns, i))
}

/// The sites node `i` is by its shape: TLS group lists, Go TLS and SSH
/// config fields, JOSE algorithm names, liboqs-go constructions, OpenMLS
/// ciphersuites.
pub open spec fn structural_matches(ns: Seq<SyntaxNode>, i: int, language: Language) -> Seq<RawView> {
    java_structural(ns, i, language) + c_structural(ns, i, language) + go_literal_structural(ns, i, language)
        + go_config_structural(ns, i, language) + rust_structural(ns, i, language)
}

fn visit_java(t: &SyntaxTree, i: usize, language: Language, out: &mut Vec<RawMatch>)
    requires
        i < t.view_nodes().len(),
    ensures
        views(final(out)@) == views(old(out)@) + java_structural(t.view_nodes(), i as int, language),
{
    reveal(java_structural);
    let ghost ns = t.view_nodes();
    let ghost e0 = views(out@);
    let java_call = language == Language::Java && str_eq(t.node(i).kind.as_str(), "method_invocation");
    if java_call {
        match_java_set_named_groups(t, i, out);
        match_java_set_property_named_groups(t, i, out);
        match_bc_named_groups(t, i, out);
        assert(views(out@) =~= e0 + java_structural(ns, i as int, language));
    } else {
        assert(views(out@) =~= e0 + java_structural(ns, i as int, language));
    }
}

fn visit_c(t: &SyntaxTree, i: usize, language: Language, out: &mut Vec<RawMatch>)
    requires
        i < t.view_nodes().len(),
    ensures
        views(final(out)@) == views(old(out)@) + c_structural(t.view_nodes(), i as int, language),
{
    reveal(c_structural);
    let ghost e0 = views(out@);
    if (language == Language::C || language == Language::Cpp) && str_eq(t.node(i).kind.as_str(), "call_expression") {
        match_c_ssl_groups_list(t, i, out);
    } else {
        assert(views(out@) =~= e0 + c_structural(t.view_nodes(), i as int, language));
    }
}

fn visit_go_literals(t: &SyntaxTree, i: usize, language: Language, out: &mut Vec<RawMatch>)
    requires
        i < t.view_nodes().len(),
    ensures
        views(final(out)@) == views(old(out)@) + go_literal_structural(t.view_nodes(), i as int, language),
{
    reveal(go_literal_structural);
    let ghost ns = t.view_nodes();
    let ghost e0 = views(out@);
    let go = language == Language::Go;
    let kind = t.node(i).kind.as_str();
    if go && str_eq(kind, "expression_switch_statement") {
        match_go_alg_switch(t, i, out);
    }
    let ghost e1 = views(out@);
    assert(e1 =~= e0 + when(go && kind_is(ns, i as int, "expression_switch_statement"@), alg_switch_spec(ns, i as int)));
    if go && (str_eq(kind, "interpreted_string_literal") || str_eq(kind, "raw_string_literal")) {
        match_go_alg_string_literal(t, i, out);
    }
    assert(views(out@) =~= e1 + when(go && go_string_kind(ns, i as int), alg_string_literal_spec(ns, i as int)));
}

fn visit_go_config(t: &SyntaxTree, i: usize, language: Language, out: &mut Vec<RawMatch>)
    requires
        i < t.view_nodes().len(),
    ensures
        views(final(out)@) == views(old(out)@) + go_config_structural(t.view_nodes(), i as int, language),
{
    reveal(go_config_structural);
    let ghost ns = t.view_nodes();
    let ghost e0 = views(out@);
    let go = language == Language::Go;
    let kind = t.node(i).kind.as_str();
    if go && str_eq(kind, "keyed_element") {
        match_go_curve_preferences(t, i, out);
        match_go_tls_min_version(t, i, out);
        match_go_ssh_key_exchanges(t, i, out);
    }
    let ghost e1 = views(out@);
    let ghost keyed = go && kind_is(ns, i as int, "keyed_element"@);
    assert(e1 =~= e0 + when(keyed, curve_preferences_spec(ns, i as int)) + when(keyed, tls_min_version_spec(ns, i as int))
        + when(keyed, ssh_key_exchanges_spec(ns, i as int)));
    if go && str_eq(kind, "composite_literal") {
        match_go_oqs_construction(t, i, out);
    }
    assert(views(out@) =~= e1 + when(go && kind_is(ns, i as int, "composite_literal"@), oqs_construction_spec(ns, i as int)));
}

fn visit_rust(t: &SyntaxTree, i: usize, language: Language, out: &mut Vec<RawMatch>)
    requires
        i < t.view_nodes().len(),
    ensures
        views(final(out)@) == views(old(out)@) + rust_structural(t.view_nodes(), i as int, language),
{
    reveal(rust_structural);
    let ghost ns = t.view_nodes();
    let ghost e0 = views(out@);
    if language == Language::Rust {
        let kind = t.node(i).kind.as_str();
        if str_eq(kind, "field_initializer") || str_eq(kind, "const_item") || str_eq(kind, "static_item") {
            match_rust_kx_groups(t, i, out);
        }
        if str_eq(kind, "scoped_identifier") {
            match_rust_openmls_ciphersuite(t, i, out);
            match_rust_post_quantum_provider(t, i, out);
        }
        assert(views(out@) =~= e0 + rust_structural(ns, i as int, language));
    } else {
        assert(views(out@) =~= e0 + rust_structural(ns, i as int, language));
    }
}

fn visit_structural(t: &SyntaxTree, i: usize, language: Language, out: &mut Vec<RawMatch>)
    requires
        i < t.view_nodes().len(),
    ensures
        views(final(out)@) == views(old(out)@) + structural_matches(t.view_nodes(), i as int, language),
{
    let ghost ns = t.view_nodes();
    let ghost e0 = views(out@);
    visit_java(t, i, language, out);
    visit_c(t, i, language, out);
    visit_go_literals(t, i, language, out);
    visit_go_config(t, i, language, out);
    visit_rust(t, i, language, out);
    assert(views(out@) =~= e0 + structural_matches(ns, i as int, language));
}

/// The sites in the subtree of `i`, in document order: node `i` itself
/// when `k < 0`, then the subtrees of its children from the `k`-th. Node
/// `i` sits at `depth`; nothing at `MAX_AST_DEPTH` or below is visited.
pub open spec fn walk_from(
    ns: Seq<SyntaxNode>,
    i: int,
    k: int,
    depth: int,
    language: Language,
    bindings: Seq<(Seq<char>, Seq<char>)>,
    pq: Seq<(Seq<char>, Seq<char>)>,
) -> Seq<RawView>
    decreases ns.len() - i, ns[i].children@.len() - k,
{
    if i < 0 || i >= ns.len() {
        Seq::empty()
    } else if k < 0 {
        if depth >= MAX_AST_DEPTH {
            Seq::empty()
        } else {
            node_matches(ns, i, language, bindings, pq) + walk_from(ns, i, 0, depth, language, bindings, pq)
        }
    } else if k >= ns[i].children@.len() {
        Seq::empty()
    } else {
        let c = ns[i].children@[k] as int;
        let below = if i < c < ns.len() {
            walk_from(ns, c, -1, depth + 1, language, bindings, pq)
        } else {
            Seq::empty()
        };
        below + walk_from(ns, i, k + 1, depth, language, bindings, pq)
    }
}

fn push_opt(out: &mut Vec<RawMatch>, m: Option<RawMatch>)
    ensures
        views(final(out)@) == views(old(out)@) + opt_seq(
            match m {
                Some(x) => Some(x@),
                None => None,
            },
        ),
{
    match m {
        Some(x) => {
            let ghost before = out@;
            out.push(x);
            assert(views(out@) =~= views(before) + seq![x@]);
        },
        None => {
            assert(views(out@) =~= views(out@) + Seq::<RawView>::empty());
        },
    }
}

fn visit_node(
    t: &SyntaxTree,
    i: usize,
    language: Language,
    bindings: &Vec<(String, String)>,
    pq: &Vec<(String, String)>,
    out: &mut Vec<RawMatch>,
)
    requires
        i < t.view_nodes().len(),
    ensures
        views(final(out)@) == views(old(out)@) + node_matches(t.view_nodes(), i as int, language, pairs_of(bindings@), pairs_of(pq@)),
{
    let ghost ns = t.view_nodes();
    let ghost e0 = views(out@);
    let kind = t.node(i).kind.as_str();
    let is_call = str_eq(kind, "call_expression") || str_eq(kind, "call") || str_eq(kind, "method_invocation")
        || str_eq(kind, "invocation_expression") || str_eq(kind, "object_creation_expression");
    if is_call {
        push_opt(out, match_call(t, i, language, bindings, pq));
    }
    let ghost e1 = views(out@);
    if language == Language::Java && str_eq(kind, "field_access") {
        push_opt(out, match_java_field_access(t, i));
    }
    let ghost e2 = views(out@);
    visit_structural(t, i, language, out);
    proof {
        let calls = if call_like(ns, i as int) {
            opt_seq(call_match_spec(ns, i as int, language, pairs_of(bindings@), pairs_of(pq@)))
        } else {
            Seq::empty()
        };
        let fields = if language == Language::Java && kind_is(ns, i as int, "field_access"@) {
            opt_seq(java_field_access_spec(ns, i as int))
        } else {
            Seq::empty()
        };
        assert(e1 =~= e0 + calls);
        assert(e2 =~= e1 + fields);
        assert(views(out@) =~= e0 + node_matches(ns, i as int, language, pairs_of(bindings@), pairs_of(pq@)));
    }
}

/// Collect the sites in the subtree of node `i`, which sits at `depth`.
pub fn walk(
    t: &SyntaxTree,
    i: usize,
    depth: usize,
    language: Language,
    bindings: &Vec<(String, String)>,
    pq: &Vec<(String, String)>,
    out: &mut Vec<RawMatch>,
)
    requires
        i < t.view_nodes().len(),
    ensures
        views(final(out)@) == views(old(out)@) + walk_from(
            t.view_nodes(),
            i as int,
            -1,
            depth as int,
            language,
            pairs_of(bindings@),
            pairs_of(pq@),
        ),
    decreases t.view_nodes().len() - i,
{
    proof {
        use_type_invariant(t);
        assert(node_wf(t.view_nodes(), i as int));
    }
    let ghost ns = t.view_nodes();
    let ghost e0 = views(out@);
    if depth >= MAX_AST_DEPTH {
        assert(views(out@) =~= e0 + Seq::<RawView>::empty());
        return;
    }
    visit_node(t, i, language, bindings, pq, out);
    let node = t.node(i);
    let mut k: usize = 0;
    while k < node.children.len()
        invariant
            *node == ns[i as int],
            ns == t.view_nodes(),
            i < ns.len(),
            node_wf(ns, i as int),
            depth < MAX_AST_DEPTH,
            k <= node.children@.len(),
            e0 + walk_from(ns, i as int, -1, depth as int, language, pairs_of(bindings@), pairs_of(pq@)) == views(out@) + walk_from(
                ns,
                i as int,
                k as int,
                depth as int,
                language,
                pairs_of(bindings@),
                pairs_of(pq@),
            ),
        decreases node.children.len() - k,
    {
        let c = node.children[k];
        let ghost before = views(out@);
        walk(t, c, depth + 1, language, bindings, pq, out);
        proof {
            let below = walk_from(ns, c as int, -1, depth + 1, language, pairs_of(bindings@), pairs_of(pq@));
            let rest = walk_from(ns, i as int, k + 1, depth as int, language, pairs_of(bindings@), pairs_of(pq@));
            assert(walk_from(ns, i as int, k as int, depth as int, language, pairs_of(bindings@), pairs_of(pq@)) == below + rest);
            assert(before + (below + rest) =~= views(out@) + rest);
        }
        k = k + 1;
    }
    assert(views(out@) + walk_from(ns, i as int, k as int, depth as int, language, pairs_of(bindings@), pairs_of(pq@)) =~= views(out@));
}

/// The bare-name bindings a file's imports make, in document order.
pub open spec fn bare_bindings_spec(ns: Seq<SyntaxNode>, root: int, language: Language) -> Seq<(Seq<char>, Seq<char>)> {
    match language {
        Language::JavaScript | Language::TypeScript => gather_from(ns, root, -1, Gather::JsBare),
        Language::Python => gather_from(ns, root, -1, Gather::PythonBare),
        _ => Seq::empty(),
    }
}

/// The post-quantum package aliases of a Go file; none elsewhere.
pub open spec fn pq_aliases_spec(ns: Seq<SyntaxNode>, root: int, language: Language) -> Seq<(Seq<char>, Seq<char>)> {
    if language == Language::Go {
        gather_from(ns, root, -1, Gather::GoPqAliases)
    } else {
        Seq::empty()
    }
}

/// One file's extract pass: the sites, and the file-scope import targets a
/// classify rule may qualify them with.
pub struct ExtractedFile {
    pub matches: Vec<RawMatch>,
    pub imports: Vec<String>,
}

/// Run the extract pass over a file whose syntax tree is rooted at node 0.
pub fn extract_file(t: &SyntaxTree, language: Language) -> (r: ExtractedFile)
    requires
        t.view_nodes().len() > 0,
    ensures
        views(r.matches@) == walk_from(
            t.view_nodes(),
            0,
            -1,
            0,
            language,
            bare_bindings_spec(t.view_nodes(), 0, language),
            pq_aliases_spec(t.view_nodes(), 0, language),
        ),
        strs_of(r.imports@) == imports_spec(t.view_nodes(), 0, language),
{
    let bindings = collect_bare_bindings(t, 0, language);
    let pq = if language == Language::Go {
        collect_go_pq_aliases(t, 0)
    } else {
        Vec::new()
    };
    assert(pairs_of(pq@) =~= pq_aliases_spec(t.view_nodes(), 0, language));
    let mut matches: Vec<RawMatch> = Vec::new();
    assert(views(matches@) =~= Seq::<RawView>::empty());
    walk(t, 0, 0, language, &bindings, &pq, &mut matches);
    assert(Seq::<RawView>::empty() + walk_from(
        t.view_nodes(),
        0,
        -1,
        0,
        language,
        pairs_of(bindings@),
        pairs_of(pq@),
    ) =~= views(matches@));
    let imports = collect_imports(t, 0, language);
    ExtractedFile { matches, imports }
}

} // verus!
