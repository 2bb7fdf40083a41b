//! Parsing a source file with its language's tree-sitter grammar, and laying
//! the parsed nodes out as a [`SyntaxTree`]: each node with its kind, the
//! first line of its text, its position, its parent and its children.
use vstd::prelude::*;
use crate::classify::ScanError;
use crate::rules::Language;
use crate::scanner::extracted_as;
use crate::syntax::{SyntaxNode, SyntaxTree, node_wf, tree_wf};
use crate::text::{chars_of, string_from_chars, trim_end_chars, trim_end_ws};
use crate::walker::{ExtractedFile, extract_file};

verus! {

#[verifier::external_type_specification]
#[verifier::external_body]
pub struct ExParsedTree(tree_sitter::Tree);

/// One parsed node as tree-sitter reports it.
pub struct NodeShape {
    /// The grammar's kind of the node.
    pub kind: String,
    /// Whether the grammar names the node.
    pub named: bool,
    /// The field of its parent the node fills, if any.
    pub field: Option<String>,
    /// Byte offset of the node's start.
    pub start: usize,
    /// Byte offset just past the node's end.
    pub end: usize,
    /// 0-based row of the node's start.
    pub row: usize,
    /// How many ancestors the node has.
    pub depth: usize,
}

/// A parsed node as plain values.
pub struct ShapeView {
    pub kind: Seq<char>,
    pub named: bool,
    pub field: Option<Seq<char>>,
    pub start: usize,
    pub end: usize,
    pub row: usize,
    pub depth: usize,
}

pub open spec fn shape_view(n: NodeShape) -> ShapeView {
    ShapeView {
        kind: n.kind@,
        named: n.named,
        field: match n.field {
            Some(f) => Some(f@),
            None => None,
        },
        start: n.start,
        end: n.end,
        row: n.row,
        depth: n.depth,
    }
}

pub open spec fn shape_views(ns: Seq<NodeShape>) -> Seq<ShapeView> {
    ns.map_values(|n: NodeShape| shape_view(n))
}

/// What tree-sitter's parser yields for `source` under grammar number
/// `grammar` (in the order of [`grammar_index`]): every node in pre-order,
/// or `None` when the grammar does not load.
pub uninterp spec fn ts_parse(grammar: usize, source: Seq<u8>) -> Option<Seq<ShapeView>>;

/// The nodes a parsed tree holds, in pre-order.
pub uninterp spec fn tree_nodes(tree: tree_sitter::Tree) -> Seq<ShapeView>;

/// `tree_sitter::Parser::new`, `Parser::set_language` with grammar number
/// `grammar`, then `Parser::parse` of `source` with no earlier tree. The
/// contract claims that the tree handed back holds the nodes of the named
/// parse, and that `None` comes exactly when that parse has none: the
/// grammar did not load (`parse` returns `None` only for a parser that has
/// no language).
#[verifier::external_body]
fn ts_parse_tree(grammar: usize, source: &[u8]) -> (r: Option<tree_sitter::Tree>)
    requires
        grammar < 9,
    ensures
        r matches Some(t) ==> ts_parse(grammar, source@) == Some(tree_nodes(t)),
        r is None ==> ts_parse(grammar, source@) is None,
{
    let grammars = [
        tree_sitter_go::LANGUAGE, tree_sitter_python::LANGUAGE, tree_sitter_java::LANGUAGE,
        tree_sitter_javascript::LANGUAGE, tree_sitter_typescript::LANGUAGE_TYPESCRIPT,
        tree_sitter_c::LANGUAGE, tree_sitter_cpp::LANGUAGE, tree_sitter_rust::LANGUAGE,
        tree_sitter_c_sharp::LANGUAGE,
    ];
    let mut parser = tree_sitter::Parser::new();
    parser.set_language(&grammars[grammar].into()).ok()?;
    parser.parse(source, None)
}

/// `Node::descendant_count` of the tree's root node: the contract claims it
/// is the number of nodes the tree holds, the root included.
#[verifier::external_body]
fn ts_node_count(tree: &tree_sitter::Tree) -> (n: usize)
    ensures
        n == tree_nodes(*tree).len(),
{
    tree.root_node().descendant_count()
}

/// `TreeCursor::goto_descendant(i)` on a cursor made at the root, then the
/// node's kind, named flag, byte range and start row and the cursor's field
/// name and depth. The contract claims these are the `i`-th node of the
/// tree in pre-order, the root being node 0.
#[verifier::external_body]
fn ts_node_at(tree: &tree_sitter::Tree, i: usize) -> (r: NodeShape)
    requires
        i < tree_nodes(*tree).len(),
    ensures
        shape_view(r) == tree_nodes(*tree)[i as int],
{
    let mut c = tree.walk();
    c.goto_descendant(i);
    let n = c.node();
    NodeShape {
        kind: n.kind().to_string(),
        named: n.is_named(),
        field: c.field_name().map(|f| f.to_string()),
        start: n.start_byte(),
        end: n.end_byte(),
        row: n.start_position().row,
        depth: c.depth() as usize,
    }
}

/// What `String::from_utf8_lossy` makes of `bytes`: their UTF-8 text, each
/// invalid sequence replaced by U+FFFD.
pub uninterp spec fn utf8_lossy(bytes: Seq<u8>) -> Seq<char>;

/// `String::from_utf8_lossy`, owned; the contract claims its result is the
/// named decoding of `bytes`.
#[verifier::external_body]
fn lossy_string(bytes: &[u8]) -> (s: String)
    ensures
        s@ == utf8_lossy(bytes@),
{
    String::from_utf8_lossy(bytes).into_owned()
}

/// The grammar a language is parsed with: TypeScript uses the `typescript`
/// grammar, not `tsx`.
pub open spec fn grammar_index(l: Language) -> usize {
    match l {
        Language::Go => 0,
        Language::Python => 1,
        Language::Java => 2,
        Language::JavaScript => 3,
        Language::TypeScript => 4,
        Language::C => 5,
        Language::Cpp => 6,
        Language::Rust => 7,
        Language::CSharp => 8,
    }
}

fn grammar_of(l: Language) -> (g: usize)
    ensures
        g == grammar_index(l),
        g < 9,
{
    match l {
        Language::Go => 0,
        Language::Python => 1,
        Language::Java => 2,
        Language::JavaScript => 3,
        Language::TypeScript => 4,
        Language::C => 5,
        Language::Cpp => 6,
        Language::Rust => 7,
        Language::CSharp => 8,
    }
}

// ---------------------------------------------------------------------------
// The shape of a pre-order node list.

/// The depths describe a tree in pre-order: the root first, at depth 0,
/// and every later node below it, at most one level deeper than the node
/// before it.
pub open spec fn preorder_depths(ns: Seq<ShapeView>) -> bool {
    &&& ns.len() > 0
    &&& ns[0].depth == 0
    &&& forall|i: int| 0 < i < ns.len() ==> 1 <= #[trigger] ns[i].depth <= ns[i - 1].depth + 1
}

/// The last node before `k` at depth `d`.
pub open spec fn last_at(ns: Seq<ShapeView>, k: int, d: int) -> Option<int>
    decreases k,
{
    if k <= 0 {
        None
    } else if ns[k - 1].depth == d {
        Some(k - 1)
    } else {
        last_at(ns, k - 1, d)
    }
}

/// A node's parent: the last node before it one level up.
pub open spec fn parent_of(ns: Seq<ShapeView>, i: int) -> Option<int> {
    if i <= 0 {
        None
    } else {
        last_at(ns, i, ns[i].depth - 1)
    }
}

/// The children of `p` among the nodes before `k`, in order.
pub open spec fn children_below(ns: Seq<ShapeView>, p: int, k: int) -> Seq<usize>
    decreases k,
{
    if k <= 0 {
        Seq::empty()
    } else if parent_of(ns, k - 1) == Some(p) {
        children_below(ns, p, k - 1).push((k - 1) as usize)
    } else {
        children_below(ns, p, k - 1)
    }
}

/// The named children of `p` among the nodes before `k`, in order.
pub open spec fn named_below(ns: Seq<ShapeView>, p: int, k: int) -> Seq<usize>
    decreases k,
{
    if k <= 0 {
        Seq::empty()
    } else if parent_of(ns, k - 1) == Some(p) && ns[k - 1].named {
        named_below(ns, p, k - 1).push((k - 1) as usize)
    } else {
        named_below(ns, p, k - 1)
    }
}

/// The field children of `p` among the nodes before `k`, with their field
/// names, in order.
pub open spec fn fields_below(ns: Seq<ShapeView>, p: int, k: int) -> Seq<(Seq<char>, usize)>
    decreases k,
{
    if k <= 0 {
        Seq::empty()
    } else if parent_of(ns, k - 1) == Some(p) && ns[k - 1].field is Some {
        fields_below(ns, p, k - 1).push((ns[k - 1].field->0, (k - 1) as usize))
    } else {
        fields_below(ns, p, k - 1)
    }
}

/// Where the first line of `src` from `j` on ends, before `e`.
pub open spec fn line_end(src: Seq<u8>, j: int, e: int) -> int
    decreases e - j,
{
    if j >= e {
        e
    } else if src[j] == 10 {
        j
    } else {
        line_end(src, j + 1, e)
    }
}

pub open spec fn clip(n: int, len: int) -> int {
    if n < len {
        n
    } else {
        len
    }
}

/// The first line of a node's text, trailing whitespace removed; the byte
/// range is clipped to the source.
pub open spec fn node_text(src: Seq<u8>, start: usize, end: usize) -> Seq<char> {
    let s = clip(start as int, src.len() as int);
    let e = clip(end as int, src.len() as int);
    if s >= e || line_end(src, s, e) == s {
        Seq::empty()
    } else {
        trim_end_ws(utf8_lossy(src.subrange(s, line_end(src, s, e))))
    }
}

pub open spec fn saturate_u32(n: int) -> u32 {
    if n < 0xffff_ffff {
        n as u32
    } else {
        0xffff_ffff
    }
}

pub open spec fn fields_view(f: Seq<(String, usize)>) -> Seq<(Seq<char>, usize)> {
    f.map_values(|e: (String, usize)| (e.0@, e.1))
}

pub open spec fn parent_index(ns: Seq<ShapeView>, i: int) -> Option<usize> {
    match parent_of(ns, i) {
        Some(p) => Some(p as usize),
        None => None,
    }
}

/// Syntax node `n` is parsed node `i` laid out over `src`.
pub open spec fn node_laid_out(src: Seq<u8>, ns: Seq<ShapeView>, n: SyntaxNode, i: int) -> bool {
    &&& n.kind@ == ns[i].kind
    &&& n.text@ == node_text(src, ns[i].start, ns[i].end)
    &&& n.line == saturate_u32(ns[i].row + 1)
    &&& n.offset == saturate_u32(ns[i].start as int)
    &&& n.parent == parent_index(ns, i)
    &&& n.children@ == children_below(ns, i, ns.len() as int)
    &&& n.named_children@ == named_below(ns, i, ns.len() as int)
    &&& fields_view(n.fields@) == fields_below(ns, i, ns.len() as int)
}

/// The syntax nodes `t` are the parsed nodes `ns` laid out over `src`.
pub open spec fn laid_out(src: Seq<u8>, ns: Seq<ShapeView>, t: Seq<SyntaxNode>) -> bool {
    &&& t.len() == ns.len()
    &&& forall|i: int| 0 <= i < ns.len() ==> #[trigger] node_laid_out(src, ns, t[i], i)
}

// ---------------------------------------------------------------------------
// Laying the nodes out.

proof fn lemma_last_at_before(ns: Seq<ShapeView>, k: int, d: int)
    ensures
        last_at(ns, k, d) matches Some(j) ==> 0 <= j < k && ns[j].depth == d,
    decreases k,
{
    if k > 0 && ns[k - 1].depth != d {
        lemma_last_at_before(ns, k - 1, d);
    }
}

proof fn lemma_below_after(ns: Seq<ShapeView>, p: int, k: int)
    requires
        k <= ns.len(),
        ns.len() <= usize::MAX,
    ensures
        forall|x: int| 0 <= x < children_below(ns, p, k).len() ==> p < #[trigger] children_below(ns, p, k)[x] < ns.len(),
        forall|x: int| 0 <= x < named_below(ns, p, k).len() ==> p < #[trigger] named_below(ns, p, k)[x] < ns.len(),
        forall|x: int| 0 <= x < fields_below(ns, p, k).len() ==> p < #[trigger] fields_below(ns, p, k)[x].1 < ns.len(),
    decreases k,
{
    if k > 0 {
        lemma_below_after(ns, p, k - 1);
        lemma_last_at_before(ns, k - 1, ns[k - 1].depth - 1);
        let c = children_below(ns, p, k);
        let c0 = children_below(ns, p, k - 1);
        if parent_of(ns, k - 1) == Some(p) {
            assert(c == c0.push((k - 1) as usize));
            assert(p < k - 1);
        } else {
            assert(c == c0);
        }
        assert forall|x: int| 0 <= x < c.len() implies p < #[trigger] c[x] < ns.len() by {
            if x < c0.len() {
                assert(c[x] == c0[x]);
            }
        }
        let m = named_below(ns, p, k);
        let m0 = named_below(ns, p, k - 1);
        assert forall|x: int| 0 <= x < m.len() implies p < #[trigger] m[x] < ns.len() by {
            if x < m0.len() {
                assert(m[x] == m0[x]);
            }
        }
        let f = fields_below(ns, p, k);
        let f0 = fields_below(ns, p, k - 1);
        if parent_of(ns, k - 1) == Some(p) && ns[k - 1].field is Some {
            assert(f == f0.push((ns[k - 1].field->0, (k - 1) as usize)));
            assert(p < k - 1);
        } else {
            assert(f == f0);
        }
        assert forall|x: int| 0 <= x < f.len() implies p < #[trigger] f[x].1 < ns.len() by {
            if x < f0.len() {
                assert(f[x] == f0[x]);
            }
        }
    }
}

/// Every node of the tree, in pre-order.
fn shapes_of(tree: &tree_sitter::Tree) -> (v: Vec<NodeShape>)
    ensures
        shape_views(v@) == tree_nodes(*tree),
{
    let n = ts_node_count(tree);
    let mut v: Vec<NodeShape> = Vec::new();
    let mut i: usize = 0;
    while i < n
        invariant
            i <= n,
            n == tree_nodes(*tree).len(),
            shape_views(v@) == tree_nodes(*tree).subrange(0, i as int),
        decreases n - i,
    {
        let ghost before = v@;
        v.push(ts_node_at(tree, i));
        assert(shape_views(v@) =~= shape_views(before).push(tree_nodes(*tree)[i as int]));
        i = i + 1;
        assert(tree_nodes(*tree).subrange(0, i as int) =~= tree_nodes(*tree).subrange(0, i - 1).push(tree_nodes(*tree)[i - 1]));
    }
    assert(tree_nodes(*tree).subrange(0, n as int) =~= tree_nodes(*tree));
    v
}

/// Does the node list describe a tree in pre-order?
fn check_preorder(ns: &Vec<NodeShape>) -> (b: bool)
    ensures
        b == preorder_depths(shape_views(ns@)),
{
    let ghost v = shape_views(ns@);
    if ns.len() == 0 || ns[0].depth != 0 {
        return false;
    }
    let mut i: usize = 1;
    while i < ns.len()
        invariant
            1 <= i <= ns@.len(),
            v == shape_views(ns@),
            forall|j: int| 0 < j < i ==> 1 <= #[trigger] v[j].depth <= v[j - 1].depth + 1,
        decreases ns.len() - i,
    {
        if ns[i].depth < 1 || ns[i].depth - 1 > ns[i - 1].depth {
            assert(!(1 <= v[i as int].depth <= v[i - 1].depth + 1));
            return false;
        }
        i = i + 1;
    }
    true
}

/// Each node's parent, found with a stack of the last node seen at each
/// depth.
fn parents_of(ns: &Vec<NodeShape>) -> (r: Vec<Option<usize>>)
    requires
        preorder_depths(shape_views(ns@)),
    ensures
        r@.len() == ns@.len(),
        forall|i: int| 0 <= i < ns@.len() ==> #[trigger] r@[i] == parent_index(shape_views(ns@), i),
{
    let ghost v = shape_views(ns@);
    let mut r: Vec<Option<usize>> = Vec::new();
    let mut stack: Vec<usize> = Vec::new();
    let mut k: usize = 0;
    while k < ns.len()
        invariant
            k <= ns@.len(),
            v == shape_views(ns@),
            preorder_depths(v),
            r@.len() == k,
            forall|i: int| 0 <= i < k ==> #[trigger] r@[i] == parent_index(v, i),
            k == 0 ==> stack@.len() == 0,
            k > 0 ==> stack@.len() == v[k - 1].depth + 1,
            forall|d: int| 0 <= d < stack@.len() ==> last_at(v, k as int, d) == Some(#[trigger] stack@[d] as int),
        decreases ns.len() - k,
    {
        let e = ns[k].depth;
        assert(v[k as int].depth == e);
        if k == 0 {
            r.push(None);
        } else {
            assert(1 <= v[k as int].depth <= v[k - 1].depth + 1);
            let p = stack[e - 1];
            assert(last_at(v, k as int, e - 1) == Some(p as int));
            r.push(Some(p));
        }
        let ghost old_stack = stack@;
        stack.truncate(e);
        stack.push(k);
        assert forall|d: int| 0 <= d < stack@.len() implies last_at(v, k + 1, d) == Some(#[trigger] stack@[d] as int) by {
            if d < e {
                assert(stack@[d] == old_stack[d]);
            }
        }
        k = k + 1;
    }
    r
}

/// The first line of the text between byte `start` and byte `end`, trailing
/// whitespace removed.
fn node_text_of(src: &[u8], start: usize, end: usize) -> (t: String)
    ensures
        t@ == node_text(src@, start, end),
{
    let s = if start < src.len() { start } else { src.len() };
    let e = if end < src.len() { end } else { src.len() };
    if s >= e {
        return String::new();
    }
    let mut j: usize = s;
    let mut line: Vec<u8> = Vec::new();
    while j < e && src[j] != 10
        invariant
            s <= j <= e,
            e <= src@.len(),
            line_end(src@, j as int, e as int) == line_end(src@, s as int, e as int),
            line@ == src@.subrange(s as int, j as int),
        decreases e - j,
    {
        line.push(src[j]);
        j = j + 1;
        assert(line@ =~= src@.subrange(s as int, j as int));
    }
    assert(line_end(src@, j as int, e as int) == j);
    if j == s {
        return String::new();
    }
    let text = lossy_string(line.as_slice());
    let trimmed = trim_end_chars(&chars_of(text.as_str()));
    string_from_chars(&trimmed)
}

fn saturating_u32(n: usize) -> (r: u32)
    ensures
        r == saturate_u32(n as int),
{
    if n < 0xffff_ffff {
        n as u32
    } else {
        0xffff_ffff
    }
}

/// The parsed nodes laid out over `src` as syntax nodes.
fn lay_out(src: &[u8], ns: &Vec<NodeShape>) -> (t: Vec<SyntaxNode>)
    requires
        preorder_depths(shape_views(ns@)),
    ensures
        laid_out(src@, shape_views(ns@), t@),
        tree_wf(t@),
{
    let ghost v = shape_views(ns@);
    let parents = parents_of(ns);
    let n = ns.len();
    let mut t: Vec<SyntaxNode> = Vec::new();
    let mut i: usize = 0;
    while i < n
        invariant
            i <= n,
            n == ns@.len(),
            v == shape_views(ns@),
            parents@.len() == n,
            forall|x: int| 0 <= x < n ==> #[trigger] parents@[x] == parent_index(v, x),
            t@.len() == i,
            forall|x: int| 0 <= x < i ==> {
                let sn = #[trigger] t@[x];
                &&& sn.kind@ == v[x].kind
                &&& sn.text@ == node_text(src@, v[x].start, v[x].end)
                &&& sn.line == saturate_u32(v[x].row + 1)
                &&& sn.offset == saturate_u32(v[x].start as int)
                &&& sn.parent == parent_index(v, x)
                &&& sn.children@.len() == 0
                &&& sn.named_children@.len() == 0
                &&& sn.fields@.len() == 0
            },
        decreases n - i,
    {
        let sh = &ns[i];
        assert(v[i as int] == shape_view(*sh));
        let row1 = if sh.row < usize::MAX { saturating_u32(sh.row + 1) } else { 0xffff_ffff };
        t.push(SyntaxNode {
            kind: sh.kind.clone(),
            text: node_text_of(src, sh.start, sh.end),
            line: row1,
            offset: saturating_u32(sh.start),
            parent: parents[i],
            children: Vec::new(),
            named_children: Vec::new(),
            fields: Vec::new(),
        });
        i = i + 1;
    }
    let mut k: usize = 0;
    while k < n
        invariant
            k <= n,
            n == ns@.len(),
            v == shape_views(ns@),
            parents@.len() == n,
            forall|x: int| 0 <= x < n ==> #[trigger] parents@[x] == parent_index(v, x),
            t@.len() == n,
            forall|x: int| 0 <= x < n ==> {
                let sn = #[trigger] t@[x];
                &&& sn.kind@ == v[x].kind
                &&& sn.text@ == node_text(src@, v[x].start, v[x].end)
                &&& sn.line == saturate_u32(v[x].row + 1)
                &&& sn.offset == saturate_u32(v[x].start as int)
                &&& sn.parent == parent_index(v, x)
                &&& sn.children@ == children_below(v, x, k as int)
                &&& sn.named_children@ == named_below(v, x, k as int)
                &&& fields_view(sn.fields@) == fields_below(v, x, k as int)
            },
        decreases n - k,
    {
        let sh = &ns[k];
        assert(v[k as int] == shape_view(*sh));
        match parents[k] {
            Some(p) => {
                proof {
                    lemma_last_at_before(v, k as int, v[k as int].depth - 1);
                }
                assert(p < k);
                let ghost before = t@;
                t[p].children.push(k);
                if sh.named {
                    t[p].named_children.push(k);
                }
                match &sh.field {
                    Some(f) => {
                        t[p].fields.push((f.clone(), k));
                    },
                    None => {},
                }
                assert forall|x: int| 0 <= x < n implies {
                    let sn = #[trigger] t@[x];
                    &&& sn.kind@ == v[x].kind
                    &&& sn.text@ == node_text(src@, v[x].start, v[x].end)
                    &&& sn.line == saturate_u32(v[x].row + 1)
                    &&& sn.offset == saturate_u32(v[x].start as int)
                    &&& sn.parent == parent_index(v, x)
                    &&& sn.children@ == children_below(v, x, k + 1)
                    &&& sn.named_children@ == named_below(v, x, k + 1)
                    &&& fields_view(sn.fields@) == fields_below(v, x, k + 1)
                } by {
                    if x == p {
                        assert(fields_view(t@[x].fields@) =~= fields_view(before[x].fields@) + (if sh.field is Some { seq![(v[k as int].field->0, k)] } else { Seq::empty() }));
                    } else {
                        assert(t@[x] == before[x]);
                    }
                }
            },
            None => {},
        }
        k = k + 1;
    }
    proof {
        assert forall|i: int| 0 <= i < n implies #[trigger] node_wf(t@, i) by {
            lemma_below_after(v, i, n as int);
            lemma_last_at_before(v, i, v[i].depth - 1);
            let sn = t@[i];
            assert forall|x: int| 0 <= x < sn.children@.len() implies i < #[trigger] sn.children@[x] < t@.len() by {
                assert(sn.children@[x] == children_below(v, i, n as int)[x]);
            }
            assert forall|x: int| 0 <= x < sn.named_children@.len() implies i < #[trigger] sn.named_children@[x] < t@.len() by {
                assert(sn.named_children@[x] == named_below(v, i, n as int)[x]);
            }
            assert forall|x: int| 0 <= x < sn.fields@.len() implies i < #[trigger] sn.fields@[x].1 < t@.len() by {
                assert(fields_view(sn.fields@)[x].1 == sn.fields@[x].1);
                assert(fields_view(sn.fields@)[x] == fields_below(v, i, n as int)[x]);
            }
        }
        assert forall|i: int| 0 <= i < n implies #[trigger] node_laid_out(src@, v, t@[i], i) by {}
    }
    t
}

/// The syntax nodes `t` are what parsing `source` as `language` lays out.
pub open spec fn parsed_as(language: Language, source: Seq<u8>, t: Seq<SyntaxNode>) -> bool {
    ts_parse(grammar_index(language), source) matches Some(ns) && laid_out(source, ns, t)
}

/// The call sites `ms` and imports `ims` are what the extract pass finds in
/// the tree parsing `source` as `language` lays out.
pub open spec fn extracted_from(language: Language, source: Seq<u8>, ms: Seq<crate::extract::RawMatch>, ims: Seq<String>) -> bool {
    exists|t: Seq<SyntaxNode>| #[trigger] extracted_as(t, language, ms, ims) && parsed_as(language, source, t)
}

/// Parse `source` as `language` and lay the nodes out as a syntax tree. A
/// grammar that will not load, or a parse that is not a tree in pre-order,
/// is `GrammarLoad`.
pub fn parse_source(language: Language, source: &[u8]) -> (r: Result<SyntaxTree, ScanError>)
    ensures
        r is Ok <==> (ts_parse(grammar_index(language), source@) matches Some(ns) && preorder_depths(ns)),
        r matches Ok(t) ==> (ts_parse(grammar_index(language), source@) matches Some(ns) && laid_out(
            source@,
            ns,
            t.view_nodes(),
        )),
        r matches Err(e) ==> e == ScanError::GrammarLoad(language),
{
    let tree = match ts_parse_tree(grammar_of(language), source) {
        Some(t) => t,
        None => return Err(ScanError::GrammarLoad(language)),
    };
    let shapes = shapes_of(&tree);
    if !check_preorder(&shapes) {
        return Err(ScanError::GrammarLoad(language));
    }
    let nodes = lay_out(source, &shapes);
    match SyntaxTree::new(nodes) {
        Some(t) => Ok(t),
        None => Err(ScanError::GrammarLoad(language)),
    }
}

/// The extract pass over a source file: parse it, then collect its call
/// sites and its imports.
pub fn run_extract(source: &[u8], language: Language) -> (r: Result<ExtractedFile, ScanError>)
    ensures
        r is Ok <==> (ts_parse(grammar_index(language), source@) matches Some(ns) && preorder_depths(ns)),
        r matches Ok(x) ==> extracted_from(language, source@, x.matches@, x.imports@),
        r matches Err(e) ==> e == ScanError::GrammarLoad(language),
{
    match parse_source(language, source) {
        Ok(tree) => {
            let x = extract_file(&tree, language);
            let ghost t = tree.view_nodes();
            assert(extracted_as(t, language, x.matches@, x.imports@));
            assert(parsed_as(language, source@, t));
            assert(extracted_from(language, source@, x.matches@, x.imports@));
            Ok(x)
        },
        Err(e) => Err(e),
    }
}

} // verus!
