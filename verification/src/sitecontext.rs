//! Where in the syntax tree a match sits, read from the chain of its
//! ancestors: a map entry, a test assertion, a registry lookup, a
//! comparison, a collection element, a struct literal, a call argument or a
//! constant. Also whether a call sits inside a construct that asserts it
//! fails.
use vstd::prelude::*;
use crate::findings::SiteContext;
use crate::rules::Language;
use crate::sitecheck::{
    assertion_head_spec, assertion_heads, callee_head, callee_head_spec, equality_heads, in_strs,
    is_collection_membership_callee, is_equality_callee, is_map_insert_callee,
    is_registry_lookup_callee, is_test_assertion_callee, map_insert_heads, membership_heads,
    registry_lookup_spec,
};
use crate::tables::strs_view;
use crate::text::{chars_of, str_eq};

verus! {

/// One ancestor of a matched node, with the parts of it the classifier
/// reads.
#[derive(Debug, Clone)]
pub struct Frame {
    /// The node kind.
    pub kind: String,
    /// For an argument list: the first-line text of the callee of the call
    /// it belongs to.
    pub call_callee: Option<String>,
    /// For an argument list: the call it belongs to is itself an argument.
    pub call_consumed: bool,
    /// For a call: the first-line text of its own callee.
    pub own_callee: Option<String>,
    /// For a binary expression: the operator text.
    pub operator: Option<String>,
    /// For a composite literal: the kind of its first named child.
    pub first_named_kind: Option<String>,
    /// For a member expression: the property text.
    pub property: Option<String>,
    /// For a `with` statement: one of its items calls something named
    /// `*raises` (`pytest.raises`, `self.assertRaises`), case-insensitively.
    pub with_raises: bool,
}

pub open spec fn kind_of(f: Frame) -> Seq<char> {
    f.kind@
}

/// Kinds that end the walk up: a function body or the source root.
pub open spec fn boundary_kinds() -> Seq<Seq<char>> {
    seq![
        "source_file"@, "program"@, "compilation_unit"@, "function_declaration"@,
        "method_declaration"@, "function_definition"@,
    ]
}

/// How many ancestors the classifier reads: at most six, up to and
/// including the first boundary.
pub open spec fn chain_end(anc: Seq<Frame>, i: int) -> int
    decreases anc.len() - i,
{
    if i < 0 || i >= anc.len() {
        anc.len() as int
    } else if i + 1 >= 6 || boundary_kinds().contains(kind_of(anc[i])) {
        i + 1
    } else {
        chain_end(anc, i + 1)
    }
}

/// The ancestors the classifier reads.
pub open spec fn site_chain(anc: Seq<Frame>) -> Seq<Frame> {
    anc.subrange(0, chain_end(anc, 0))
}

pub open spec fn is_arglist(f: Frame) -> bool {
    kind_of(f) == "argument_list"@ || kind_of(f) == "arguments"@
}

/// The callee tests an enclosing call is put to.
pub enum CalleeTest {
    MapInsert,
    Assertion(Language),
    Membership,
}

pub open spec fn callee_passes(t: CalleeTest, c: Seq<char>) -> bool {
    match t {
        CalleeTest::MapInsert => map_insert_heads().contains(callee_head_spec(c)),
        CalleeTest::Assertion(l) => assertion_heads(l).contains(assertion_head_spec(c)),
        CalleeTest::Membership => membership_heads().contains(callee_head_spec(c)),
    }
}

/// Some argument list of the chain belongs to a call whose callee passes.
pub open spec fn enclosing_callee(c: Seq<Frame>, t: CalleeTest) -> bool {
    exists|i: int| 0 <= i < c.len() && is_arglist(#[trigger] c[i]) && (c[i].call_callee matches Some(x) && callee_passes(t, x@))
}

pub open spec fn map_kinds() -> Seq<Seq<char>> {
    seq!["keyed_element"@, "key_value_expression"@, "pair"@, "dictionary"@]
}

pub open spec fn is_map_frame(f: Frame) -> bool {
    map_kinds().contains(kind_of(f))
}

/// An argument of a lookup call whose result no enclosing call consumes.
pub open spec fn is_lookup_frame(f: Frame) -> bool {
    is_arglist(f) && (f.call_callee matches Some(x) && registry_lookup_spec(x@)) && !f.call_consumed
}

pub open spec fn is_comparison_frame(f: Frame) -> bool {
    ||| (kind_of(f) == "binary_expression"@ && (f.operator matches Some(op) && (op@ == "=="@ || op@ == "!="@)))
    ||| ((kind_of(f) == "method_invocation"@ || kind_of(f) == "call_expression"@) && (f.own_callee matches Some(
        x,
    ) && equality_heads().contains(callee_head_spec(x@))))
}

pub open spec fn collection_type_kinds() -> Seq<Seq<char>> {
    seq!["slice_type"@, "array_type"@, "map_type"@]
}

/// A composite literal of slice, array or map type.
pub open spec fn is_collection_literal(f: Frame) -> bool {
    kind_of(f) == "composite_literal"@ && (f.first_named_kind matches Some(k) && collection_type_kinds().contains(k@))
}

/// The first composite literal at or above position `i`.
pub open spec fn first_composite(c: Seq<Frame>, i: int) -> Option<int>
    decreases c.len() - i,
{
    if i < 0 || i >= c.len() {
        None
    } else if kind_of(c[i]) == "composite_literal"@ {
        Some(i)
    } else {
        first_composite(c, i + 1)
    }
}

pub open spec fn struct_element_kinds() -> Seq<Seq<char>> {
    seq!["literal_element"@, "literal_value"@, "struct_initializer"@]
}

/// A literal element whose nearest composite literal is not a collection.
pub open spec fn struct_literal_at(c: Seq<Frame>, i: int) -> bool {
    struct_element_kinds().contains(kind_of(c[i])) && !(first_composite(c, i) matches Some(j) && is_collection_literal(c[j]))
}

/// A collection literal sits below the first argument list of the chain.
pub open spec fn collection_before_arglist(c: Seq<Frame>, i: int) -> bool
    decreases c.len() - i,
{
    if i < 0 || i >= c.len() {
        false
    } else if is_arglist(c[i]) {
        false
    } else if is_collection_literal(c[i]) {
        true
    } else {
        collection_before_arglist(c, i + 1)
    }
}

pub open spec fn declaration_kinds() -> Seq<Seq<char>> {
    seq![
        "const_spec"@, "var_spec"@, "const_declaration"@, "var_declaration"@,
        "local_variable_declaration"@, "field_declaration"@,
    ]
}

pub open spec fn any_frame(c: Seq<Frame>, p: spec_fn(Frame) -> bool) -> bool {
    exists|i: int| 0 <= i < c.len() && p(#[trigger] c[i])
}

/// The site context of a match whose chain of ancestors is `c`, by
/// priority: map entry, test assertion, registry lookup, comparison,
/// collection element, struct literal, call, constant, default.
pub open spec fn site_context_of(c: Seq<Frame>, language: Language) -> SiteContext {
    if any_frame(c, |f: Frame| is_map_frame(f)) || enclosing_callee(c, CalleeTest::MapInsert) {
        SiteContext::MapEntry
    } else if enclosing_callee(c, CalleeTest::Assertion(language)) {
        SiteContext::TestAssertion
    } else if any_frame(c, |f: Frame| is_lookup_frame(f)) {
        SiteContext::RegistryLookup
    } else if any_frame(c, |f: Frame| is_comparison_frame(f)) {
        SiteContext::Comparison
    } else if any_frame(c, |f: Frame| kind_of(f) == "array_initializer"@) || enclosing_callee(
        c,
        CalleeTest::Membership,
    ) {
        SiteContext::CollectionElement
    } else if exists|i: int| 0 <= i < c.len() && #[trigger] struct_literal_at(c, i) {
        SiteContext::StructLiteral
    } else if any_frame(c, |f: Frame| is_arglist(f)) && !collection_before_arglist(c, 0) {
        SiteContext::Call
    } else if !any_frame(c, |f: Frame| kind_of(f) == "composite_literal"@) && any_frame(
        c,
        |f: Frame| declaration_kinds().contains(kind_of(f)),
    ) {
        SiteContext::StringConstant
    } else {
        SiteContext::Default
    }
}

fn kind_in(f: &Frame, kinds: &Vec<&'static str>) -> (r: bool)
    ensures
        r == strs_view(kinds@).contains(f.kind@),
{
    in_strs(&chars_of(f.kind.as_str()), kinds)
}

fn frame_is_arglist(f: &Frame) -> (r: bool)
    ensures
        r == is_arglist(*f),
{
    str_eq(f.kind.as_str(), "argument_list") || str_eq(f.kind.as_str(), "arguments")
}

fn frame_is_collection_literal(f: &Frame) -> (r: bool)
    ensures
        r == is_collection_literal(*f),
{
    if !str_eq(f.kind.as_str(), "composite_literal") {
        return false;
    }
    match &f.first_named_kind {
        Some(k) => {
            let kinds = vec!["slice_type", "array_type", "map_type"];
            assert(strs_view(kinds@) =~= collection_type_kinds());
            in_strs(&chars_of(k.as_str()), &kinds)
        },
        None => false,
    }
}

fn passes(t: &CalleeTestExec, c: &str) -> (r: bool)
    ensures
        r == callee_passes(t.view(), c@),
{
    match t {
        CalleeTestExec::MapInsert => is_map_insert_callee(c),
        CalleeTestExec::Assertion(l) => is_test_assertion_callee(c, *l),
        CalleeTestExec::Membership => is_collection_membership_callee(c),
    }
}

/// The callee tests, as values a loop can carry.
pub enum CalleeTestExec {
    MapInsert,
    Assertion(Language),
    Membership,
}

impl CalleeTestExec {
    pub open spec fn view(&self) -> CalleeTest {
        match self {
            CalleeTestExec::MapInsert => CalleeTest::MapInsert,
            CalleeTestExec::Assertion(l) => CalleeTest::Assertion(*l),
            CalleeTestExec::Membership => CalleeTest::Membership,
        }
    }
}

/// Does some argument list of the chain belong to a call whose callee
/// passes `t`?
fn enclosing_callee_matches(anc: &Vec<Frame>, n: usize, t: &CalleeTestExec) -> (r: bool)
    requires
        n <= anc@.len(),
    ensures
        r == enclosing_callee(anc@.subrange(0, n as int), t.view()),
{
    let ghost c = anc@.subrange(0, n as int);
    let mut i: usize = 0;
    while i < n
        invariant
            i <= n <= anc@.len(),
            c == anc@.subrange(0, n as int),
            forall|j: int| 0 <= j < i ==> !(is_arglist(#[trigger] c[j]) && (c[j].call_callee matches Some(x)
                && callee_passes(t.view(), x@))),
        decreases n - i,
    {
        assert(c[i as int] == anc@[i as int]);
        if frame_is_arglist(&anc[i]) {
            match &anc[i].call_callee {
                Some(x) => {
                    if passes(t, x.as_str()) {
                        assert(is_arglist(c[i as int]));
                        return true;
                    }
                },
                None => {},
            }
        }
        i = i + 1;
    }
    false
}

fn frame_is_map(f: &Frame) -> (r: bool)
    ensures
        r == is_map_frame(*f),
{
    let kinds = vec!["keyed_element", "key_value_expression", "pair", "dictionary"];
    assert(strs_view(kinds@) =~= map_kinds());
    kind_in(f, &kinds)
}

fn frame_is_lookup(f: &Frame) -> (r: bool)
    ensures
        r == is_lookup_frame(*f),
{
    if !frame_is_arglist(f) || f.call_consumed {
        return false;
    }
    match &f.call_callee {
        Some(x) => is_registry_lookup_callee(x.as_str()),
        None => false,
    }
}

fn frame_is_comparison(f: &Frame) -> (r: bool)
    ensures
        r == is_comparison_frame(*f),
{
    if str_eq(f.kind.as_str(), "binary_expression") {
        match &f.operator {
            Some(op) => {
                if str_eq(op.as_str(), "==") || str_eq(op.as_str(), "!=") {
                    return true;
                }
            },
            None => {},
        }
    }
    if str_eq(f.kind.as_str(), "method_invocation") || str_eq(f.kind.as_str(), "call_expression") {
        match &f.own_callee {
            Some(x) => {
                return is_equality_callee(x.as_str());
            },
            None => {},
        }
    }
    false
}

/// Which single-frame test a scan applies.
enum FrameTest {
    MapKind,
    Lookup,
    Comparison,
    ArrayInitializer,
    Arglist,
    Composite,
    Declaration,
}

spec fn frame_test(t: FrameTest, f: Frame) -> bool {
    match t {
        FrameTest::MapKind => is_map_frame(f),
        FrameTest::Lookup => is_lookup_frame(f),
        FrameTest::Comparison => is_comparison_frame(f),
        FrameTest::ArrayInitializer => kind_of(f) == "array_initializer"@,
        FrameTest::Arglist => is_arglist(f),
        FrameTest::Composite => kind_of(f) == "composite_literal"@,
        FrameTest::Declaration => declaration_kinds().contains(kind_of(f)),
    }
}

fn test_frame(t: &FrameTest, f: &Frame) -> (r: bool)
    ensures
        r == frame_test(*t, *f),
{
    match t {
        FrameTest::MapKind => frame_is_map(f),
        FrameTest::Lookup => frame_is_lookup(f),
        FrameTest::Comparison => frame_is_comparison(f),
        FrameTest::ArrayInitializer => str_eq(f.kind.as_str(), "array_initializer"),
        FrameTest::Arglist => frame_is_arglist(f),
        FrameTest::Composite => str_eq(f.kind.as_str(), "composite_literal"),
        FrameTest::Declaration => {
            let kinds = vec![
                "const_spec", "var_spec", "const_declaration", "var_declaration",
                "local_variable_declaration", "field_declaration",
            ];
            assert(strs_view(kinds@) =~= declaration_kinds());
            kind_in(f, &kinds)
        },
    }
}

/// Does some frame of the chain pass `t`?
fn scan(anc: &Vec<Frame>, n: usize, t: &FrameTest) -> (r: bool)
    requires
        n <= anc@.len(),
    ensures
        r == exists|i: int| 0 <= i < n && frame_test(*t, #[trigger] anc@.subrange(0, n as int)[i]),
{
    let ghost c = anc@.subrange(0, n as int);
    let mut i: usize = 0;
    while i < n
        invariant
            i <= n <= anc@.len(),
            c == anc@.subrange(0, n as int),
            forall|j: int| 0 <= j < i ==> !frame_test(*t, #[trigger] c[j]),
        decreases n - i,
    {
        assert(c[i as int] == anc@[i as int]);
        if test_frame(t, &anc[i]) {
            assert(frame_test(*t, c[i as int]));
            return true;
        }
        i = i + 1;
    }
    false
}

/// The first composite literal at or above position `i`.
fn find_composite(anc: &Vec<Frame>, n: usize, i: usize) -> (r: Option<usize>)
    requires
        i <= n <= anc@.len(),
    ensures
        match r {
            Some(j) => first_composite(anc@.subrange(0, n as int), i as int) == Some(j as int) && j < n,
            None => first_composite(anc@.subrange(0, n as int), i as int) is None,
        },
{
    let ghost c = anc@.subrange(0, n as int);
    let mut j: usize = i;
    while j < n
        invariant
            i <= j <= n <= anc@.len(),
            c == anc@.subrange(0, n as int),
            first_composite(c, i as int) == first_composite(c, j as int),
        decreases n - j,
    {
        assert(c[j as int] == anc@[j as int]);
        if str_eq(anc[j].kind.as_str(), "composite_literal") {
            return Some(j);
        }
        j = j + 1;
    }
    None
}

fn any_struct_literal(anc: &Vec<Frame>, n: usize) -> (r: bool)
    requires
        n <= anc@.len(),
    ensures
        r == exists|i: int| 0 <= i < n && #[trigger] struct_literal_at(anc@.subrange(0, n as int), i),
{
    let ghost c = anc@.subrange(0, n as int);
    let kinds = vec!["literal_element", "literal_value", "struct_initializer"];
    assert(strs_view(kinds@) =~= struct_element_kinds());
    let mut i: usize = 0;
    while i < n
        invariant
            i <= n <= anc@.len(),
            c == anc@.subrange(0, n as int),
            strs_view(kinds@) == struct_element_kinds(),
            forall|j: int| 0 <= j < i ==> !#[trigger] struct_literal_at(c, j),
        decreases n - i,
    {
        assert(c[i as int] == anc@[i as int]);
        if kind_in(&anc[i], &kinds) {
            let collection = match find_composite(anc, n, i) {
                Some(j) => {
                    assert(c[j as int] == anc@[j as int]);
                    frame_is_collection_literal(&anc[j])
                },
                None => false,
            };
            if !collection {
                assert(struct_literal_at(c, i as int));
                return true;
            }
        }
        i = i + 1;
    }
    false
}

fn collection_below_arglist(anc: &Vec<Frame>, n: usize) -> (r: bool)
    requires
        n <= anc@.len(),
    ensures
        r == collection_before_arglist(anc@.subrange(0, n as int), 0),
{
    let ghost c = anc@.subrange(0, n as int);
    let mut i: usize = 0;
    while i < n
        invariant
            i <= n <= anc@.len(),
            c == anc@.subrange(0, n as int),
            collection_before_arglist(c, 0) == collection_before_arglist(c, i as int),
        decreases n - i,
    {
        assert(c[i as int] == anc@[i as int]);
        if frame_is_arglist(&anc[i]) {
            return false;
        }
        if frame_is_collection_literal(&anc[i]) {
            return true;
        }
        i = i + 1;
    }
    false
}

/// How many of the ancestors the classifier reads.
fn site_chain_len(anc: &Vec<Frame>) -> (n: usize)
    ensures
        n == chain_end(anc@, 0),
        n <= anc@.len(),
{
    let kinds = vec![
        "source_file", "program", "compilation_unit", "function_declaration", "method_declaration",
        "function_definition",
    ];
    assert(strs_view(kinds@) =~= boundary_kinds());
    let mut i: usize = 0;
    while i < anc.len()
        invariant
            i <= anc@.len(),
            i < 6,
            strs_view(kinds@) == boundary_kinds(),
            chain_end(anc@, 0) == chain_end(anc@, i as int),
        decreases anc.len() - i,
    {
        if i + 1 >= 6 || kind_in(&anc[i], &kinds) {
            return i + 1;
        }
        i = i + 1;
    }
    anc.len()
}

proof fn lemma_chain_end_bounds(anc: Seq<Frame>, i: int)
    requires
        0 <= i <= anc.len(),
    ensures
        i <= chain_end(anc, i) <= anc.len(),
    decreases anc.len() - i,
{
    if i < anc.len() && !(i + 1 >= 6 || boundary_kinds().contains(kind_of(anc[i]))) {
        lemma_chain_end_bounds(anc, i + 1);
    }
}

/// The syntactic site context of a match, from its ancestors (parent
/// first). The classifier reads at most six of them, stopping at a
/// function body or the source root.
pub fn classify_site_context(ancestors: &Vec<Frame>, language: Language) -> (r: SiteContext)
    ensures
        r == site_context_of(site_chain(ancestors@), language),
{
    let n = site_chain_len(ancestors);
    let ghost c = site_chain(ancestors@);
    assert(c == ancestors@.subrange(0, n as int));
    if scan(ancestors, n, &FrameTest::MapKind) || enclosing_callee_matches(ancestors, n, &CalleeTestExec::MapInsert) {
        return SiteContext::MapEntry;
    }
    if enclosing_callee_matches(ancestors, n, &CalleeTestExec::Assertion(language)) {
        return SiteContext::TestAssertion;
    }
    if scan(ancestors, n, &FrameTest::Lookup) {
        return SiteContext::RegistryLookup;
    }
    if scan(ancestors, n, &FrameTest::Comparison) {
        return SiteContext::Comparison;
    }
    if scan(ancestors, n, &FrameTest::ArrayInitializer) || enclosing_callee_matches(
        ancestors,
        n,
        &CalleeTestExec::Membership,
    ) {
        return SiteContext::CollectionElement;
    }
    if any_struct_literal(ancestors, n) {
        return SiteContext::StructLiteral;
    }
    if scan(ancestors, n, &FrameTest::Arglist) && !collection_below_arglist(ancestors, n) {
        return SiteContext::Call;
    }
    if !scan(ancestors, n, &FrameTest::Composite) && scan(ancestors, n, &FrameTest::Declaration) {
        return SiteContext::StringConstant;
    }
    SiteContext::Default
}


/// How many ancestors the fail-assertion walk reads: at most eight, up to
/// and including the first frame of one of the `stop` kinds.
pub open spec fn fail_walk_end(anc: Seq<Frame>, i: int, stop: Seq<Seq<char>>) -> int
    decreases anc.len() - i,
{
    if i < 0 || i >= anc.len() {
        anc.len() as int
    } else if i + 1 >= 8 || stop.contains(kind_of(anc[i])) {
        i + 1
    } else {
        fail_walk_end(anc, i + 1, stop)
    }
}

pub open spec fn python_stops() -> Seq<Seq<char>> {
    seq!["function_definition"@, "module"@]
}

pub open spec fn js_stops() -> Seq<Seq<char>> {
    seq!["function_declaration"@, "program"@]
}

/// A `with` statement one of whose items calls something named `*raises`.
pub open spec fn raises_frame(f: Frame) -> bool {
    kind_of(f) == "with_statement"@ && f.with_raises
}

/// An `expect(...)` call.
pub open spec fn expect_frame(f: Frame) -> bool {
    kind_of(f) == "call_expression"@ && (f.own_callee matches Some(x) && callee_head_spec(x@) == "expect"@)
}

/// The first `expect(...)` call among the first `end` ancestors, from `i`.
pub open spec fn first_expect(anc: Seq<Frame>, i: int, end: int) -> Option<int>
    decreases end - i,
{
    if i < 0 || i >= end || i >= anc.len() {
        None
    } else if expect_frame(anc[i]) {
        Some(i)
    } else {
        first_expect(anc, i + 1, end)
    }
}

pub open spec fn throw_names() -> Seq<Seq<char>> {
    seq!["throw"@, "toThrow"@, "toThrowError"@]
}

/// Up to four member-expression hops above position `j`, one of which
/// names a throw assertion.
pub open spec fn throw_hops(anc: Seq<Frame>, j: int, hops: int) -> bool
    decreases 4 - hops,
{
    if hops >= 4 || j < 0 || j >= anc.len() {
        false
    } else if kind_of(anc[j]) != "member_expression"@ {
        false
    } else if anc[j].property matches Some(p) && throw_names().contains(p@) {
        true
    } else {
        throw_hops(anc, j + 1, hops + 1)
    }
}

/// The call sits in a construct the test uses to assert it fails: a Python
/// `with pytest.raises(...)` / `with self.assertRaises(...)` block, or a
/// JS/TS `expect(...).to.throw(...)` / `.toThrow(...)` chain.
pub open spec fn asserted_to_fail(anc: Seq<Frame>, language: Language) -> bool {
    match language {
        Language::Python => exists|i: int| 0 <= i < fail_walk_end(anc, 0, python_stops()) && #[trigger] raises_frame(anc[i]),
        Language::JavaScript | Language::TypeScript => match first_expect(anc, 0, fail_walk_end(anc, 0, js_stops())) {
            Some(e) => throw_hops(anc, e + 1, 0),
            None => false,
        },
        _ => false,
    }
}

proof fn lemma_fail_walk_end_bounds(anc: Seq<Frame>, i: int, stop: Seq<Seq<char>>)
    requires
        0 <= i <= anc.len(),
    ensures
        i <= fail_walk_end(anc, i, stop) <= anc.len(),
    decreases anc.len() - i,
{
    if i < anc.len() && !(i + 1 >= 8 || stop.contains(kind_of(anc[i]))) {
        lemma_fail_walk_end_bounds(anc, i + 1, stop);
    }
}

fn walk_end(anc: &Vec<Frame>, stops: &Vec<&'static str>) -> (n: usize)
    ensures
        n == fail_walk_end(anc@, 0, strs_view(stops@)),
        n <= anc@.len(),
{
    let mut i: usize = 0;
    while i < anc.len()
        invariant
            i <= anc@.len(),
            i < 8,
            fail_walk_end(anc@, 0, strs_view(stops@)) == fail_walk_end(anc@, i as int, strs_view(stops@)),
        decreases anc.len() - i,
    {
        if i + 1 >= 8 || kind_in(&anc[i], stops) {
            return i + 1;
        }
        i = i + 1;
    }
    anc.len()
}

fn frame_raises(f: &Frame) -> (r: bool)
    ensures
        r == raises_frame(*f),
{
    str_eq(f.kind.as_str(), "with_statement") && f.with_raises
}

fn frame_is_expect(f: &Frame) -> (r: bool)
    ensures
        r == expect_frame(*f),
{
    if !str_eq(f.kind.as_str(), "call_expression") {
        return false;
    }
    match &f.own_callee {
        Some(x) => str_eq(callee_head(x.as_str()).as_str(), "expect"),
        None => false,
    }
}

fn chain_throws(anc: &Vec<Frame>, start: usize) -> (r: bool)
    requires
        start <= anc@.len(),
    ensures
        r == throw_hops(anc@, start as int, 0),
{
    let names = vec!["throw", "toThrow", "toThrowError"];
    assert(strs_view(names@) =~= throw_names());
    let mut j: usize = start;
    let mut hops: usize = 0;
    while hops < 4 && j < anc.len()
        invariant
            start <= j <= anc@.len(),
            hops <= 4,
            j == start + hops,
            strs_view(names@) == throw_names(),
            throw_hops(anc@, start as int, 0) == throw_hops(anc@, j as int, hops as int),
        decreases 4 - hops,
    {
        if !str_eq(anc[j].kind.as_str(), "member_expression") {
            return false;
        }
        match &anc[j].property {
            Some(p) => {
                if in_strs(&chars_of(p.as_str()), &names) {
                    return true;
                }
            },
            None => {},
        }
        j = j + 1;
        hops = hops + 1;
    }
    false
}

/// Does the call, with these ancestors (parent first), sit in a construct
/// that asserts it fails?
pub fn is_call_asserted_to_fail(ancestors: &Vec<Frame>, language: Language) -> (r: bool)
    ensures
        r == asserted_to_fail(ancestors@, language),
{
    match language {
        Language::Python => {
            let stops = vec!["function_definition", "module"];
            assert(strs_view(stops@) =~= python_stops());
            let n = walk_end(ancestors, &stops);
            let mut i: usize = 0;
            while i < n
                invariant
                    i <= n <= ancestors@.len(),
                    n == fail_walk_end(ancestors@, 0, python_stops()),
                    language == Language::Python,
                    forall|j: int| 0 <= j < i ==> !#[trigger] raises_frame(ancestors@[j]),
                decreases n - i,
            {
                if frame_raises(&ancestors[i]) {
                    assert(raises_frame(ancestors@[i as int]));
                    return true;
                }
                i = i + 1;
            }
            false
        },
        Language::JavaScript | Language::TypeScript => {
            let stops = vec!["function_declaration", "program"];
            assert(strs_view(stops@) =~= js_stops());
            let n = walk_end(ancestors, &stops);
            let mut i: usize = 0;
            while i < n
                invariant
                    i <= n <= ancestors@.len(),
                    n == fail_walk_end(ancestors@, 0, js_stops()),
                    language == Language::JavaScript || language == Language::TypeScript,
                    first_expect(ancestors@, 0, n as int) == first_expect(ancestors@, i as int, n as int),
                decreases n - i,
            {
                if frame_is_expect(&ancestors[i]) {
                    assert(expect_frame(ancestors@[i as int]));
                    assert(first_expect(ancestors@, i as int, n as int) == Some(i as int));
                    return chain_throws(ancestors, i + 1);
                }
                i = i + 1;
            }
            false
        },
        _ => false,
    }
}

} // verus!
