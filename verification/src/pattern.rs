//! Splitting on and replacing a separator *string*, with the leftmost,
//! non-overlapping occurrence semantics of `str::split` and `str::replace`.
use vstd::prelude::*;
use crate::text::{occurs_at, contains_seq, chars_find, slice_chars};

verus! {

/// First occurrence of `pat` in `s` at or after `i`, or -1.
pub open spec fn first_occ_from(s: Seq<char>, pat: Seq<char>, i: int) -> int
    decreases s.len() + 1 - i,
{
    if i < 0 || i > s.len() {
        -1
    } else if occurs_at(s, pat, i) {
        i
    } else {
        first_occ_from(s, pat, i + 1)
    }
}

pub open spec fn first_occ(s: Seq<char>, pat: Seq<char>) -> int {
    first_occ_from(s, pat, 0)
}

/// The segments `s.split(pat)` yields.
pub open spec fn split_str(s: Seq<char>, pat: Seq<char>) -> Seq<Seq<char>>
    recommends
        pat.len() > 0,
    decreases s.len(),
{
    let i = first_occ(s, pat);
    if pat.len() == 0 || i < 0 {
        seq![s]
    } else {
        proof {
            lemma_first_occ_bounds(s, pat, 0);
        }
        seq![s.subrange(0, i)] + split_str(s.subrange(i + pat.len(), s.len() as int), pat)
    }
}

/// `s.replace(pat, rep)`.
pub open spec fn replace_all(s: Seq<char>, pat: Seq<char>, rep: Seq<char>) -> Seq<char>
    recommends
        pat.len() > 0,
    decreases s.len(),
{
    let i = first_occ(s, pat);
    if pat.len() == 0 || i < 0 {
        s
    } else {
        proof {
            lemma_first_occ_bounds(s, pat, 0);
        }
        s.subrange(0, i) + rep + replace_all(s.subrange(i + pat.len(), s.len() as int), pat, rep)
    }
}

/// The characterisation `chars_find` gives pins down `first_occ`.
pub proof fn lemma_first_occ(s: Seq<char>, pat: Seq<char>, i: int, k: int)
    requires
        0 <= k <= i,
        occurs_at(s, pat, i),
        forall|j: int| 0 <= j < i ==> !occurs_at(s, pat, j),
    ensures
        first_occ_from(s, pat, k) == i,
    decreases i - k,
{
    if k < i {
        lemma_first_occ(s, pat, i, k + 1);
    }
}

pub proof fn lemma_no_occ(s: Seq<char>, pat: Seq<char>, k: int)
    requires
        0 <= k,
        !contains_seq(s, pat),
    ensures
        first_occ_from(s, pat, k) == -1,
    decreases s.len() + 1 - k,
{
    if k <= s.len() {
        assert(!occurs_at(s, pat, k));
        lemma_no_occ(s, pat, k + 1);
    }
}

pub proof fn lemma_first_occ_bounds(s: Seq<char>, pat: Seq<char>, k: int)
    requires
        0 <= k,
    ensures
        first_occ_from(s, pat, k) == -1 || (k <= first_occ_from(s, pat, k) && occurs_at(
            s,
            pat,
            first_occ_from(s, pat, k),
        )),
    decreases s.len() + 1 - k,
{
    if k <= s.len() && !occurs_at(s, pat, k) {
        lemma_first_occ_bounds(s, pat, k + 1);
    }
}

/// Position of the first occurrence of `pat` in `v`, as `first_occ`.
pub fn find_first(v: &Vec<char>, pat: &Vec<char>) -> (r: Option<usize>)
    ensures
        match r {
            Some(i) => first_occ(v@, pat@) == i as int && occurs_at(v@, pat@, i as int),
            None => first_occ(v@, pat@) == -1,
        },
{
    match chars_find(v, pat) {
        Some(i) => {
            proof { lemma_first_occ(v@, pat@, i as int, 0); }
            Some(i)
        },
        None => {
            proof { lemma_no_occ(v@, pat@, 0); }
            None
        },
    }
}

/// `v.split(pat)`.
pub fn split_on_str(v: &Vec<char>, pat: &Vec<char>) -> (r: Vec<Vec<char>>)
    requires
        pat@.len() > 0,
    ensures
        r@.len() == split_str(v@, pat@).len(),
        forall|k: int| 0 <= k < r@.len() ==> #[trigger] r@[k]@ == split_str(v@, pat@)[k],
{
    let mut out: Vec<Vec<char>> = Vec::new();
    let mut rest = slice_chars(v, 0, v.len());
    let ghost done: Seq<Seq<char>> = Seq::empty();
    assert(v@.subrange(0, v@.len() as int) =~= v@);
    loop
        invariant_except_break
            pat@.len() > 0,
            out@.len() == done.len(),
            forall|k: int| 0 <= k < out@.len() ==> #[trigger] out@[k]@ == done[k],
            done + split_str(rest@, pat@) == split_str(v@, pat@),
        ensures
            out@.len() == split_str(v@, pat@).len(),
            forall|k: int| 0 <= k < out@.len() ==> #[trigger] out@[k]@ == split_str(v@, pat@)[k],
        decreases rest@.len(),
    {
        match find_first(&rest, pat) {
            None => {
                proof {
                    assert(split_str(rest@, pat@) == seq![rest@]);
                    done = done.push(rest@);
                }
                out.push(rest);
                assert(done == split_str(v@, pat@));
                break;
            },
            Some(i) => {
                let head = slice_chars(&rest, 0, i);
                let n = rest.len();
                assert(i + pat@.len() <= rest@.len());
                let tail = slice_chars(&rest, i + pat.len(), n);
                proof {
                    assert(split_str(rest@, pat@) == seq![head@] + split_str(tail@, pat@));
                    assert(done + split_str(rest@, pat@) =~= done.push(head@) + split_str(tail@, pat@));
                    done = done.push(head@);
                }
                out.push(head);
                rest = tail;
            },
        }
    }
    out
}

/// `v.replace(pat, rep)`.
pub fn replace_all_chars(v: &Vec<char>, pat: &Vec<char>, rep: &Vec<char>) -> (r: Vec<char>)
    requires
        pat@.len() > 0,
    ensures
        r@ == replace_all(v@, pat@, rep@),
{
    let mut out: Vec<char> = Vec::new();
    let mut rest = slice_chars(v, 0, v.len());
    assert(v@.subrange(0, v@.len() as int) =~= v@);
    loop
        invariant_except_break
            pat@.len() > 0,
            out@ + replace_all(rest@, pat@, rep@) == replace_all(v@, pat@, rep@),
        ensures
            out@ == replace_all(v@, pat@, rep@),
        decreases rest@.len(),
    {
        match find_first(&rest, pat) {
            None => {
                let mut j: usize = 0;
                let ghost pre = out@;
                while j < rest.len()
                    invariant
                        j <= rest@.len(),
                        out@ == pre + rest@.subrange(0, j as int),
                    decreases rest.len() - j,
                {
                    out.push(rest[j]);
                    j = j + 1;
                    assert(out@ =~= pre + rest@.subrange(0, j as int));
                }
                assert(rest@.subrange(0, rest@.len() as int) =~= rest@);
                break;
            },
            Some(i) => {
                let ghost pre = out@;
                let ghost old_rest = rest@;
                let mut j: usize = 0;
                while j < i
                    invariant
                        i <= rest@.len(),
                        j <= i,
                        out@ == pre + rest@.subrange(0, j as int),
                    decreases i - j,
                {
                    out.push(rest[j]);
                    j = j + 1;
                    assert(out@ =~= pre + rest@.subrange(0, j as int));
                }
                let mut k: usize = 0;
                let ghost mid = out@;
                while k < rep.len()
                    invariant
                        k <= rep@.len(),
                        out@ == mid + rep@.subrange(0, k as int),
                    decreases rep.len() - k,
                {
                    out.push(rep[k]);
                    k = k + 1;
                    assert(out@ =~= mid + rep@.subrange(0, k as int));
                }
                assert(rep@.subrange(0, rep@.len() as int) =~= rep@);
                let n = rest.len();
                assert(i + pat@.len() <= rest@.len());
                let tail = slice_chars(&rest, i + pat.len(), n);
                proof {
                    assert(replace_all(old_rest, pat@, rep@) == old_rest.subrange(0, i as int) + rep@
                        + replace_all(tail@, pat@, rep@));
                    assert(out@ + replace_all(tail@, pat@, rep@) =~= pre + replace_all(old_rest, pat@, rep@));
                }
                rest = tail;
            },
        }
    }
    out
}

} // verus!
