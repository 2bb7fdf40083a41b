//! The ancestors of a syntax-tree node as the frames the site-context
//! classifier reads: each ancestor's kind, the callee of the call an
//! argument list belongs to, the operator of a binary expression and so on.
use vstd::prelude::*;
use crate::sitecontext::Frame;
use crate::syntax::{SyntaxNode, SyntaxTree, child_by_field, field_of, kind_is, node_wf, text_of};
use crate::text::{chars_ends_with, chars_lower, chars_of, is_suffix, lower_seq, str_eq};

verus! {

/// The ancestors of node `i`, its parent first, up to the root.
pub open spec fn ancestors(ns: Seq<SyntaxNode>, i: int) -> Seq<int>
    decreases i,
{
    if 0 <= i < ns.len() {
        match ns[i].parent {
            Some(p) => if p < i {
                seq![p as int] + ancestors(ns, p as int)
            } else {
                Seq::empty()
            },
            None => Seq::empty(),
        }
    } else {
        Seq::empty()
    }
}

/// The first-line text of the child of `i` reachable by field `name`.
pub open spec fn field_text_of(ns: Seq<SyntaxNode>, i: int, name: Seq<char>) -> Option<String> {
    match field_of(ns, i, name) {
        Some(f) => Some(ns[f].text),
        None => None,
    }
}

/// The callee of a call: its `function` child, or the `name` child of a
/// Java method invocation.
pub open spec fn callee_text(ns: Seq<SyntaxNode>, c: int) -> Option<String> {
    match field_text_of(ns, c, "function"@) {
        Some(s) => Some(s),
        None => field_text_of(ns, c, "name"@),
    }
}

pub open spec fn arglist_kind(ns: Seq<SyntaxNode>, i: int) -> bool {
    kind_is(ns, i, "argument_list"@) || kind_is(ns, i, "arguments"@)
}

/// A `with` item whose value calls something named `*raises`,
/// case-insensitively.
pub open spec fn raising_item(ns: Seq<SyntaxNode>, item: int) -> bool {
    &&& kind_is(ns, item, "with_item"@)
    &&& field_of(ns, item, "value"@) matches Some(v)
    &&& kind_is(ns, v, "call"@)
    &&& field_of(ns, v, "function"@) matches Some(f)
    &&& is_suffix("raises"@, lower_seq(text_of(ns, f)))
}

/// A `with` clause among the named children of `i` holds a raising item.
pub open spec fn with_raises_at(ns: Seq<SyntaxNode>, i: int) -> bool {
    exists|a: int, b: int|
        0 <= a < ns[i].named_children@.len() && kind_is(ns, ns[i].named_children@[a] as int, "with_clause"@)
            && 0 <= b < ns[ns[i].named_children@[a] as int].named_children@.len() && #[trigger] raising_item(
            ns,
            ns[ns[i].named_children@[a] as int].named_children@[b] as int,
        )
}

/// The frame the classifier reads for node `i`.
pub open spec fn frame_spec(ns: Seq<SyntaxNode>, i: int) -> Frame {
    Frame {
        kind: ns[i].kind,
        call_callee: if arglist_kind(ns, i) {
            match ns[i].parent {
                Some(p) => callee_text(ns, p as int),
                None => None,
            }
        } else {
            None
        },
        call_consumed: arglist_kind(ns, i) && (ns[i].parent matches Some(p) && (ns[p as int].parent matches Some(
            q,
        ) && arglist_kind(ns, q as int))),
        own_callee: callee_text(ns, i),
        operator: field_text_of(ns, i, "operator"@),
        first_named_kind: if ns[i].named_children@.len() > 0 {
            Some(ns[ns[i].named_children@[0] as int].kind)
        } else {
            None
        },
        property: field_text_of(ns, i, "property"@),
        with_raises: kind_is(ns, i, "with_statement"@) && with_raises_at(ns, i),
    }
}

/// The frames of the ancestors of node `i`, parent first.
pub open spec fn ancestor_frames_spec(ns: Seq<SyntaxNode>, i: int) -> Seq<Frame> {
    ancestors(ns, i).map_values(|a: int| frame_spec(ns, a))
}

/// Every ancestor is a node.
pub proof fn lemma_ancestors_in(ns: Seq<SyntaxNode>, i: int)
    ensures
        forall|k: int| 0 <= k < ancestors(ns, i).len() ==> 0 <= #[trigger] ancestors(ns, i)[k] < i,
    decreases i,
{
    if 0 <= i < ns.len() {
        if let Some(p) = ns[i].parent {
            if p < i {
                lemma_ancestors_in(ns, p as int);
                let s = ancestors(ns, i);
                assert forall|k: int| 0 <= k < s.len() implies 0 <= #[trigger] s[k] < i by {
                    if k > 0 {
                        assert(s[k] == ancestors(ns, p as int)[k - 1]);
                    }
                }
            }
        }
    }
}

fn field_text(t: &SyntaxTree, i: usize, name: &str) -> (r: Option<String>)
    requires
        i < t.view_nodes().len(),
    ensures
        r == field_text_of(t.view_nodes(), i as int, name@),
{
    match child_by_field(t, i, name) {
        Some(f) => Some(t.node(f).text.clone()),
        None => None,
    }
}

/// The callee text of call `c`.
pub fn callee_of(t: &SyntaxTree, c: usize) -> (r: Option<String>)
    requires
        c < t.view_nodes().len(),
    ensures
        r == callee_text(t.view_nodes(), c as int),
{
    match field_text(t, c, "function") {
        Some(s) => Some(s),
        None => field_text(t, c, "name"),
    }
}

fn is_arglist(t: &SyntaxTree, i: usize) -> (r: bool)
    requires
        i < t.view_nodes().len(),
    ensures
        r == arglist_kind(t.view_nodes(), i as int),
{
    let k = t.node(i).kind.as_str();
    str_eq(k, "argument_list") || str_eq(k, "arguments")
}

fn item_raises(t: &SyntaxTree, item: usize) -> (r: bool)
    requires
        item < t.view_nodes().len(),
    ensures
        r == raising_item(t.view_nodes(), item as int),
{
    if !str_eq(t.node(item).kind.as_str(), "with_item") {
        return false;
    }
    let v = match child_by_field(t, item, "value") {
        Some(v) => v,
        None => {
            return false;
        },
    };
    if !str_eq(t.node(v).kind.as_str(), "call") {
        return false;
    }
    let f = match child_by_field(t, v, "function") {
        Some(f) => f,
        None => {
            return false;
        },
    };
    chars_ends_with(&chars_lower(&chars_of(t.node(f).text.as_str())), &chars_of("raises"))
}

fn with_raises(t: &SyntaxTree, i: usize) -> (r: bool)
    requires
        i < t.view_nodes().len(),
    ensures
        r == with_raises_at(t.view_nodes(), i as int),
{
    proof {
        use_type_invariant(t);
        assert(node_wf(t.view_nodes(), i as int));
    }
    let ghost ns = t.view_nodes();
    let node = t.node(i);
    let mut a: usize = 0;
    while a < node.named_children.len()
        invariant
            *node == ns[i as int],
            ns == t.view_nodes(),
            i < ns.len(),
            node_wf(ns, i as int),
            crate::syntax::tree_wf(ns),
            a <= node.named_children@.len(),
            forall|x: int, y: int|
                0 <= x < a && kind_is(ns, ns[i as int].named_children@[x] as int, "with_clause"@) && 0 <= y
                    < ns[ns[i as int].named_children@[x] as int].named_children@.len() ==> !#[trigger] raising_item(
                    ns,
                    ns[ns[i as int].named_children@[x] as int].named_children@[y] as int,
                ),
        decreases node.named_children.len() - a,
    {
        let c = node.named_children[a];
        if str_eq(t.node(c).kind.as_str(), "with_clause") {
            proof {
                assert(node_wf(ns, c as int));
            }
            let clause = t.node(c);
            let mut b: usize = 0;
            while b < clause.named_children.len()
                invariant
                    *clause == ns[c as int],
                    *node == ns[i as int],
                    ns == t.view_nodes(),
                    c == ns[i as int].named_children@[a as int],
                    a < ns[i as int].named_children@.len(),
                    c < ns.len(),
                    node_wf(ns, c as int),
                    kind_is(ns, c as int, "with_clause"@),
                    b <= clause.named_children@.len(),
                    forall|y: int| 0 <= y < b ==> !#[trigger] raising_item(ns, ns[c as int].named_children@[y] as int),
                decreases clause.named_children.len() - b,
            {
                if item_raises(t, clause.named_children[b]) {
                    assert(raising_item(ns, ns[c as int].named_children@[b as int] as int));
                    return true;
                }
                b = b + 1;
            }
        }
        a = a + 1;
    }
    false
}

/// The frame of node `i`.
pub fn frame_at(t: &SyntaxTree, i: usize) -> (r: Frame)
    requires
        i < t.view_nodes().len(),
    ensures
        r == frame_spec(t.view_nodes(), i as int),
{
    proof {
        use_type_invariant(t);
        assert(node_wf(t.view_nodes(), i as int));
    }
    let node = t.node(i);
    let arglist = is_arglist(t, i);
    let call_callee = if arglist {
        match node.parent {
            Some(p) => callee_of(t, p),
            None => None,
        }
    } else {
        None
    };
    let call_consumed = arglist && match node.parent {
        Some(p) => match t.node(p).parent {
            Some(q) => {
                proof {
                    assert(node_wf(t.view_nodes(), p as int));
                }
                is_arglist(t, q)
            },
            None => false,
        },
        None => false,
    };
    let first_named_kind = if node.named_children.len() > 0 {
        Some(t.node(node.named_children[0]).kind.clone())
    } else {
        None
    };
    let with_raises = str_eq(node.kind.as_str(), "with_statement") && with_raises(t, i);
    Frame {
        kind: node.kind.clone(),
        call_callee,
        call_consumed,
        own_callee: callee_of(t, i),
        operator: field_text(t, i, "operator"),
        first_named_kind,
        property: field_text(t, i, "property"),
        with_raises,
    }
}

/// The frames of the ancestors of node `i`, parent first.
pub fn ancestor_frames(t: &SyntaxTree, i: usize) -> (r: Vec<Frame>)
    requires
        i < t.view_nodes().len(),
    ensures
        r@ == ancestor_frames_spec(t.view_nodes(), i as int),
{
    proof {
        use_type_invariant(t);
    }
    let ghost ns = t.view_nodes();
    let mut out: Vec<Frame> = Vec::new();
    let mut cur: usize = i;
    loop
        invariant
            cur < ns.len(),
            ns == t.view_nodes(),
            crate::syntax::tree_wf(ns),
            ancestor_frames_spec(ns, i as int) == out@ + ancestor_frames_spec(ns, cur as int),
        decreases cur,
    {
        proof {
            assert(node_wf(ns, cur as int));
        }
        match t.node(cur).parent {
            Some(p) => {
                let f = frame_at(t, p);
                proof {
                    let a = ancestors(ns, cur as int);
                    assert(a == seq![p as int] + ancestors(ns, p as int));
                    assert(ancestor_frames_spec(ns, cur as int) =~= seq![frame_spec(ns, p as int)]
                        + ancestor_frames_spec(ns, p as int));
                    assert(out@.push(f) + ancestor_frames_spec(ns, p as int) =~= out@
                        + ancestor_frames_spec(ns, cur as int));
                }
                out.push(f);
                cur = p;
            },
            None => {
                proof {
                    assert(ancestor_frames_spec(ns, cur as int) =~= Seq::<Frame>::empty());
                    assert(out@ + ancestor_frames_spec(ns, cur as int) =~= out@);
                }
                return out;
            },
        }
    }
}

} // verus!
