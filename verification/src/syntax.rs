//! A parsed source file as plain values: every node with its kind, the
//! first line of its text, its position, its children, its named children
//! and its field children. Nodes are stored parents first, so a child's
//! index is always above its parent's.
use vstd::prelude::*;
use crate::text::{chars_of, str_eq, string_from_chars, trim_set, trim_set_chars};

verus! {

/// One node of a syntax tree.
#[derive(Debug, Clone)]
pub struct SyntaxNode {
    /// The grammar's kind of the node.
    pub kind: String,
    /// The first line of the node's text, trailing whitespace removed.
    pub text: String,
    /// 1-based line of the node's start.
    pub line: u32,
    /// Byte offset of the node's start.
    pub offset: u32,
    /// The enclosing node.
    pub parent: Option<usize>,
    /// Every child, in order.
    pub children: Vec<usize>,
    /// The named children, in order.
    pub named_children: Vec<usize>,
    /// Children reachable by a field name, in order.
    pub fields: Vec<(String, usize)>,
}

/// Every index a node refers to is a node, children come after their
/// parent and the parent before.
pub open spec fn node_wf(ns: Seq<SyntaxNode>, i: int) -> bool {
    let n = ns[i];
    &&& forall|k: int| 0 <= k < n.children@.len() ==> i < #[trigger] n.children@[k] < ns.len()
    &&& forall|k: int| 0 <= k < n.named_children@.len() ==> i < #[trigger] n.named_children@[k] < ns.len()
    &&& forall|k: int| 0 <= k < n.fields@.len() ==> i < #[trigger] n.fields@[k].1 < ns.len()
    &&& (n.parent matches Some(p) ==> p < i)
}

pub open spec fn tree_wf(ns: Seq<SyntaxNode>) -> bool {
    forall|i: int| 0 <= i < ns.len() ==> #[trigger] node_wf(ns, i)
}

/// A syntax tree.
pub struct SyntaxTree {
    nodes: Vec<SyntaxNode>,
}

impl SyntaxTree {
    /// The nodes.
    pub closed spec fn view_nodes(&self) -> Seq<SyntaxNode> {
        self.nodes@
    }

    /// Every index the nodes hold is in order.
    #[verifier::type_invariant]
    pub open spec fn wf(&self) -> bool {
        tree_wf(self.view_nodes())
    }

    /// A tree over `nodes`, when every index they hold is in order.
    pub fn new(nodes: Vec<SyntaxNode>) -> (r: Option<SyntaxTree>)
        ensures
            r is Some <==> tree_wf(nodes@),
            r matches Some(t) ==> t.view_nodes() == nodes@,
    {
        let mut i: usize = 0;
        while i < nodes.len()
            invariant
                i <= nodes@.len(),
                forall|j: int| 0 <= j < i ==> #[trigger] node_wf(nodes@, j),
            decreases nodes.len() - i,
        {
            let n = &nodes[i];
            let mut k: usize = 0;
            while k < n.children.len()
                invariant
                    i < nodes@.len(),
                    *n == nodes@[i as int],
                    k <= n.children@.len(),
                    forall|x: int| 0 <= x < k ==> i < #[trigger] n.children@[x] < nodes@.len(),
                decreases n.children.len() - k,
            {
                if n.children[k] <= i || n.children[k] >= nodes.len() {
                    assert(!node_wf(nodes@, i as int));
                    return None;
                }
                k = k + 1;
            }
            let mut k: usize = 0;
            while k < n.named_children.len()
                invariant
                    i < nodes@.len(),
                    *n == nodes@[i as int],
                    k <= n.named_children@.len(),
                    forall|x: int| 0 <= x < k ==> i < #[trigger] n.named_children@[x] < nodes@.len(),
                decreases n.named_children.len() - k,
            {
                if n.named_children[k] <= i || n.named_children[k] >= nodes.len() {
                    assert(!node_wf(nodes@, i as int));
                    return None;
                }
                k = k + 1;
            }
            let mut k: usize = 0;
            while k < n.fields.len()
                invariant
                    i < nodes@.len(),
                    *n == nodes@[i as int],
                    k <= n.fields@.len(),
                    forall|x: int| 0 <= x < k ==> i < #[trigger] n.fields@[x].1 < nodes@.len(),
                decreases n.fields.len() - k,
            {
                if n.fields[k].1 <= i || n.fields[k].1 >= nodes.len() {
                    assert(!node_wf(nodes@, i as int));
                    return None;
                }
                k = k + 1;
            }
            match n.parent {
                Some(p) => {
                    if p >= i {
                        assert(!node_wf(nodes@, i as int));
                        return None;
                    }
                },
                None => {},
            }
            assert(node_wf(nodes@, i as int));
            i = i + 1;
        }
        Some(SyntaxTree { nodes })
    }

    /// Number of nodes.
    pub fn len(&self) -> (n: usize)
        ensures
            n == self.view_nodes().len(),
    {
        self.nodes.len()
    }

    /// The node at `i`.
    pub fn node(&self, i: usize) -> (r: &SyntaxNode)
        requires
            i < self.view_nodes().len(),
        ensures
            *r == self.view_nodes()[i as int],
    {
        &self.nodes[i]
    }
}

// ---------------------------------------------------------------------------
// Reading nodes.

pub open spec fn kind_is(ns: Seq<SyntaxNode>, i: int, k: Seq<char>) -> bool {
    ns[i].kind@ == k
}

pub open spec fn text_of(ns: Seq<SyntaxNode>, i: int) -> Seq<char> {
    ns[i].text@
}

/// The first child of `fields` called `name`, from entry `k` on.
pub open spec fn field_from(fields: Seq<(String, usize)>, name: Seq<char>, k: int) -> Option<int>
    decreases fields.len() - k,
{
    if k < 0 || k >= fields.len() {
        None
    } else if fields[k].0@ == name {
        Some(fields[k].1 as int)
    } else {
        field_from(fields, name, k + 1)
    }
}

/// The child of node `i` reachable by field `name`.
pub open spec fn field_of(ns: Seq<SyntaxNode>, i: int, name: Seq<char>) -> Option<int> {
    field_from(ns[i].fields@, name, 0)
}

proof fn lemma_field_from_in(fields: Seq<(String, usize)>, name: Seq<char>, k: int)
    requires
        0 <= k,
    ensures
        field_from(fields, name, k) matches Some(c) ==> exists|x: int| 0 <= x < fields.len() && fields[x].1 == c,
    decreases fields.len() - k,
{
    if k < fields.len() && fields[k].0@ != name {
        lemma_field_from_in(fields, name, k + 1);
    }
}

/// A field child of a node lies above it in the tree.
pub proof fn lemma_field_of_bounds(ns: Seq<SyntaxNode>, i: int, name: Seq<char>)
    requires
        tree_wf(ns),
        0 <= i < ns.len(),
    ensures
        field_of(ns, i, name) matches Some(c) ==> i < c < ns.len(),
{
    lemma_field_from_in(ns[i].fields@, name, 0);
    assert(node_wf(ns, i));
    if let Some(c) = field_of(ns, i, name) {
        let x = choose|x: int| 0 <= x < ns[i].fields@.len() && ns[i].fields@[x].1 == c;
        assert(i < ns[i].fields@[x].1 < ns.len());
    }
}

/// The child of `node` reachable by field `name`.
pub fn child_by_field(t: &SyntaxTree, node: usize, name: &str) -> (r: Option<usize>)
    requires
        node < t.view_nodes().len(),
    ensures
        r matches Some(c) ==> node < c < t.view_nodes().len(),
        match r {
            Some(c) => field_of(t.view_nodes(), node as int, name@) == Some(c as int),
            None => field_of(t.view_nodes(), node as int, name@) is None,
        },
{
    proof {
        use_type_invariant(t);
        lemma_field_of_bounds(t.view_nodes(), node as int, name@);
    }
    let n = t.node(node);
    let mut k: usize = 0;
    while k < n.fields.len()
        invariant
            k <= n.fields@.len(),
            *n == t.view_nodes()[node as int],
            field_of(t.view_nodes(), node as int, name@) matches Some(c) ==> node < c < t.view_nodes().len(),
            field_of(t.view_nodes(), node as int, name@) == field_from(n.fields@, name@, k as int),
        decreases n.fields.len() - k,
    {
        if str_eq(n.fields[k].0.as_str(), name) {
            return Some(n.fields[k].1);
        }
        k = k + 1;
    }
    None
}

/// Punctuation and comments inside an argument list are not arguments.
pub open spec fn is_real_arg(ns: Seq<SyntaxNode>, i: int) -> bool {
    let k = ns[i].kind@;
    !(k == "("@ || k == ")"@ || k == ","@ || k == "comment"@)
}

/// The `n`-th real argument among the children of `args`, from child `k`
/// on.
pub open spec fn nth_real_from(ns: Seq<SyntaxNode>, args: int, n: int, k: int) -> Option<int>
    decreases ns[args].children@.len() - k,
{
    let ch = ns[args].children@;
    if k < 0 || k >= ch.len() {
        None
    } else if is_real_arg(ns, ch[k] as int) {
        if n == 0 {
            Some(ch[k] as int)
        } else {
            nth_real_from(ns, args, n - 1, k + 1)
        }
    } else {
        nth_real_from(ns, args, n, k + 1)
    }
}

pub open spec fn nth_real(ns: Seq<SyntaxNode>, args: int, n: int) -> Option<int> {
    nth_real_from(ns, args, n, 0)
}

proof fn lemma_nth_real_from_child(ns: Seq<SyntaxNode>, args: int, n: int, k: int)
    requires
        0 <= k,
    ensures
        nth_real_from(ns, args, n, k) matches Some(c) ==> exists|x: int| 0 <= x < ns[args].children@.len() && ns[args].children@[x] == c,
    decreases ns[args].children@.len() - k,
{
    let ch = ns[args].children@;
    if 0 <= k < ch.len() {
        if is_real_arg(ns, ch[k] as int) {
            if n != 0 {
                lemma_nth_real_from_child(ns, args, n - 1, k + 1);
            }
        } else {
            lemma_nth_real_from_child(ns, args, n, k + 1);
        }
    }
}

fn real_arg(t: &SyntaxTree, i: usize) -> (r: bool)
    requires
        i < t.view_nodes().len(),
    ensures
        r == is_real_arg(t.view_nodes(), i as int),
{
    let k = t.node(i).kind.as_str();
    !(str_eq(k, "(") || str_eq(k, ")") || str_eq(k, ",") || str_eq(k, "comment"))
}

/// The `n`-th real argument of the argument list `args`.
pub fn nth_real_arg(t: &SyntaxTree, args: usize, n: usize) -> (r: Option<usize>)
    requires
        args < t.view_nodes().len(),
    ensures
        r matches Some(c) ==> args < c < t.view_nodes().len(),
        match r {
            Some(c) => nth_real(t.view_nodes(), args as int, n as int) == Some(c as int),
            None => nth_real(t.view_nodes(), args as int, n as int) is None,
        },
{
    proof {
        use_type_invariant(t);
        assert(node_wf(t.view_nodes(), args as int));
        lemma_nth_real_from_child(t.view_nodes(), args as int, n as int, 0);
    }
    let node = t.node(args);
    let mut k: usize = 0;
    let mut left: usize = n;
    while k < node.children.len()
        invariant
            *node == t.view_nodes()[args as int],
            args < t.view_nodes().len(),
            node_wf(t.view_nodes(), args as int),
            k <= node.children@.len(),
            nth_real(t.view_nodes(), args as int, n as int) == nth_real_from(t.view_nodes(), args as int, left as int, k as int),
        decreases node.children.len() - k,
    {
        let c = node.children[k];
        if real_arg(t, c) {
            if left == 0 {
                return Some(c);
            }
            left = left - 1;
        }
        k = k + 1;
    }
    None
}

/// The quote characters string literals are written with.
pub open spec fn quote_set() -> Seq<char> {
    seq!['"', '\'', '`']
}

/// A literal's text without the quotes around it.
pub fn unquoted(s: &str) -> (r: String)
    ensures
        r@ == trim_set(s@, quote_set()),
{
    let mut q: Vec<char> = Vec::new();
    q.push('"');
    q.push('\'');
    q.push('`');
    assert(q@ =~= quote_set());
    string_from_chars(&trim_set_chars(&chars_of(s), &q))
}

// ---------------------------------------------------------------------------
// Integer literals.

pub open spec fn is_digit(c: char) -> bool {
    '0' <= c && c <= '9'
}

/// The value of a run of decimal digits.
pub open spec fn digits_value(s: Seq<char>) -> int
    decreases s.len(),
{
    if s.len() == 0 {
        0
    } else {
        digits_value(s.drop_last()) * 10 + (s.last() as int - '0' as int)
    }
}

pub open spec fn all_digits(s: Seq<char>) -> bool {
    s.len() > 0 && forall|i: int| 0 <= i < s.len() ==> is_digit(#[trigger] s[i])
}

/// What `str::parse::<i64>` gives: an optional sign, then one or more
/// decimal digits, the value in range.
pub open spec fn parse_i64_spec(s: Seq<char>) -> Option<int> {
    if s.len() > 0 && s[0] == '-' {
        let d = s.drop_first();
        if all_digits(d) && -digits_value(d) >= i64::MIN {
            Some(-digits_value(d))
        } else {
            None
        }
    } else {
        let d = if s.len() > 0 && s[0] == '+' {
            s.drop_first()
        } else {
            s
        };
        if all_digits(d) && digits_value(d) <= i64::MAX {
            Some(digits_value(d))
        } else {
            None
        }
    }
}

proof fn lemma_digits_value_grows(s: Seq<char>, i: int)
    requires
        0 <= i <= s.len(),
        forall|k: int| 0 <= k < s.len() ==> is_digit(#[trigger] s[k]),
    ensures
        digits_value(s.subrange(0, i)) <= digits_value(s),
        0 <= digits_value(s.subrange(0, i)),
    decreases s.len() - i,
{
    if i < s.len() {
        lemma_digits_value_grows(s, i + 1);
        let a = s.subrange(0, i + 1);
        assert(a.drop_last() =~= s.subrange(0, i));
        lemma_digits_value_nonneg(a.drop_last());
    } else {
        assert(s.subrange(0, i) =~= s);
        lemma_digits_value_nonneg(s);
    }
}

proof fn lemma_digits_value_nonneg(s: Seq<char>)
    requires
        forall|k: int| 0 <= k < s.len() ==> is_digit(#[trigger] s[k]),
    ensures
        0 <= digits_value(s),
    decreases s.len(),
{
    if s.len() > 0 {
        lemma_digits_value_nonneg(s.drop_last());
    }
}

/// The value of a decimal digit.
fn digit(c: char) -> (r: Option<u64>)
    ensures
        r is Some <==> is_digit(c),
        r matches Some(k) ==> k as int == c as int - '0' as int && k <= 9,
{
    match c {
        '0' => Some(0),
        '1' => Some(1),
        '2' => Some(2),
        '3' => Some(3),
        '4' => Some(4),
        '5' => Some(5),
        '6' => Some(6),
        '7' => Some(7),
        '8' => Some(8),
        '9' => Some(9),
        _ => None,
    }
}

/// Parse the decimal integer `s` as `str::parse::<i64>` does.
pub fn parse_i64(s: &str) -> (r: Option<i64>)
    ensures
        match r {
            Some(v) => parse_i64_spec(s@) == Some(v as int),
            None => parse_i64_spec(s@) is None,
        },
{
    let v = chars_of(s);
    let negative = v.len() > 0 && v[0] == '-';
    let start: usize = if v.len() > 0 && (v[0] == '-' || v[0] == '+') {
        1
    } else {
        0
    };
    let ghost d = v@.subrange(start as int, v@.len() as int);
    proof {
        if start == 1 {
            assert(d =~= v@.drop_first());
        } else {
            assert(d =~= v@);
        }
    }
    if start >= v.len() {
        assert(d.len() == 0);
        return None;
    }
    let limit: u64 = if negative {
        9223372036854775808
    } else {
        9223372036854775807
    };
    let mut acc: u64 = 0;
    let mut i: usize = start;
    assert(d.subrange(0, 0) =~= Seq::<char>::empty());
    while i < v.len()
        invariant
            start <= i <= v@.len(),
            start < v@.len(),
            d == v@.subrange(start as int, v@.len() as int),
            acc as int == digits_value(d.subrange(0, i - start)),
            acc <= limit,
            limit <= 9223372036854775808,
            limit >= 9223372036854775807,
            v@ == s@,
            negative == (v@.len() > 0 && v@[0] == '-'),
            start == (if v@.len() > 0 && (v@[0] == '-' || v@[0] == '+') { 1usize } else { 0usize }),
            limit == (if negative { 9223372036854775808u64 } else { 9223372036854775807u64 }),
            d == (if start == 1 { v@.drop_first() } else { v@ }),
            forall|k: int| 0 <= k < i - start ==> is_digit(#[trigger] d[k]),
        decreases v.len() - i,
    {
        let c = v[i];
        assert(c == d[i - start]);
        let dg = match digit(c) {
            Some(x) => x,
            None => {
                assert(!all_digits(d));
                return None;
            },
        };
        let ghost pre = d.subrange(0, i - start);
        assert(d.subrange(0, i - start + 1).drop_last() =~= pre);
        if acc > (limit - dg) / 10 {
            proof {
                assert(acc * 10 + dg > limit) by (nonlinear_arith)
                    requires
                        acc > (limit - dg) / 10,
                        dg <= 9,
                        dg <= limit,
                ;
                if all_digits(d) {
                    lemma_digits_value_grows(d, i - start + 1);
                }
            }
            return None;
        }
        assert(acc * 10 + dg <= limit) by (nonlinear_arith)
            requires
                acc <= (limit - dg) / 10,
                dg <= 9,
                dg <= limit,
        ;
        acc = acc * 10 + dg;
        i = i + 1;
    }
    assert(d.subrange(0, i - start) =~= d);
    if negative {
        if acc == 9223372036854775808 {
            Some(i64::MIN)
        } else {
            Some(-(acc as i64))
        }
    } else {
        Some(acc as i64)
    }
}

} // verus!
