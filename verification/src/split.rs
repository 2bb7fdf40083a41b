//! Splitting text on separator characters and on separator strings, with the
//! segment sequences `str::split` produces.
use vstd::prelude::*;


verus! {

/// The segments `s.split(|c| seps.contains(c))` yields, built left to right:
/// a separator closes the current segment and opens an empty one.
pub open spec fn split_chars(s: Seq<char>, seps: Seq<char>) -> Seq<Seq<char>>
    decreases s.len(),
{
    if s.len() == 0 {
        seq![Seq::<char>::empty()]
    } else {
        let prev = split_chars(s.drop_last(), seps);
        if seps.contains(s.last()) {
            prev.push(Seq::<char>::empty())
        } else {
            prev.update(prev.len() - 1, prev.last().push(s.last()))
        }
    }
}

/// `split_chars` never yields an empty list of segments.
pub proof fn lemma_split_chars_nonempty(s: Seq<char>, seps: Seq<char>)
    ensures
        split_chars(s, seps).len() >= 1,
    decreases s.len(),
{
    if s.len() > 0 {
        lemma_split_chars_nonempty(s.drop_last(), seps);
    }
}

/// The last segment: what `s.rsplit(seps).next()` yields.
pub open spec fn last_segment(s: Seq<char>, seps: Seq<char>) -> Seq<char> {
    split_chars(s, seps).last()
}

/// The first segment: what `s.split(seps).next()` yields.
pub open spec fn first_segment(s: Seq<char>, seps: Seq<char>) -> Seq<char> {
    split_chars(s, seps)[0]
}

/// Is `c` one of `seps`?
pub fn is_sep(c: char, seps: &Vec<char>) -> (r: bool)
    ensures
        r == seps@.contains(c),
{
    let mut i: usize = 0;
    while i < seps.len()
        invariant
            i <= seps@.len(),
            forall|j: int| 0 <= j < i ==> seps@[j] != c,
        decreases seps.len() - i,
    {
        if seps[i] == c {
            assert(seps@[i as int] == c);
            return true;
        }
        i = i + 1;
    }
    false
}

/// Split `s` on any of the characters in `seps`.
pub fn split_on_chars(s: &Vec<char>, seps: &Vec<char>) -> (r: Vec<Vec<char>>)
    ensures
        r@.len() == split_chars(s@, seps@).len(),
        forall|k: int| 0 <= k < r@.len() ==> #[trigger] r@[k]@ == split_chars(s@, seps@)[k],
{
    let mut r: Vec<Vec<char>> = Vec::new();
    r.push(Vec::new());
    let mut i: usize = 0;
    assert(s@.subrange(0, 0) =~= Seq::<char>::empty());
    while i < s.len()
        invariant
            i <= s@.len(),
            r@.len() == split_chars(s@.subrange(0, i as int), seps@).len(),
            r@.len() >= 1,
            forall|k: int|
                0 <= k < r@.len() ==> #[trigger] r@[k]@ == split_chars(
                    s@.subrange(0, i as int),
                    seps@,
                )[k],
        decreases s.len() - i,
    {
        let c = s[i];
        let ghost pre = s@.subrange(0, i as int);
        let ghost cur = s@.subrange(0, i + 1);
        assert(cur.drop_last() =~= pre);
        assert(cur.last() == c);
        if is_sep(c, seps) {
            r.push(Vec::new());
        } else {
            let mut seg = r.pop().unwrap();
            seg.push(c);
            r.push(seg);
            assert(r@.len() == split_chars(cur, seps@).len());
        }
        i = i + 1;
    }
    assert(s@.subrange(0, s@.len() as int) =~= s@);
    r
}

/// The last segment of `s` split on `seps`.
pub fn last_segment_of(s: &Vec<char>, seps: &Vec<char>) -> (r: Vec<char>)
    ensures
        r@ == last_segment(s@, seps@),
{
    let mut parts = split_on_chars(s, seps);
    proof { lemma_split_chars_nonempty(s@, seps@); }
    let ghost all = parts@;
    let n = parts.len();
    assert(all[n - 1]@ == split_chars(s@, seps@)[n - 1]);
    let r = parts.pop().unwrap();
    r
}

/// The first segment of `s` split on `seps`.
pub fn first_segment_of(s: &Vec<char>, seps: &Vec<char>) -> (r: Vec<char>)
    ensures
        r@ == first_segment(s@, seps@),
{
    let mut parts = split_on_chars(s, seps);
    proof { lemma_split_chars_nonempty(s@, seps@); }
    let ghost all = parts@;
    assert(all[0]@ == split_chars(s@, seps@)[0]);
    let r = parts.swap_remove(0);
    r
}

} // verus!
