//! Character-level text helpers shared by the matchers.
//!
//! Every helper works on the `Seq<char>` view of a string, so contracts
//! elsewhere in the crate can speak of prefixes, suffixes and substrings
//! directly.
use vstd::prelude::*;
use vstd::string::*;

verus! {

/// `p` is a prefix of `s`.
pub open spec fn is_prefix(p: Seq<char>, s: Seq<char>) -> bool {
    p.len() <= s.len() && s.subrange(0, p.len() as int) == p
}

/// `p` is a suffix of `s`.
pub open spec fn is_suffix(p: Seq<char>, s: Seq<char>) -> bool {
    p.len() <= s.len() && s.subrange(s.len() - p.len(), s.len() as int) == p
}

/// `t` occurs in `s` at position `i`.
pub open spec fn occurs_at(s: Seq<char>, t: Seq<char>, i: int) -> bool {
    0 <= i && i + t.len() <= s.len() && s.subrange(i, i + t.len()) == t
}

/// `t` occurs somewhere in `s`.
pub open spec fn contains_seq(s: Seq<char>, t: Seq<char>) -> bool {
    exists|i: int| occurs_at(s, t, i)
}

/// ASCII lower-casing of one character, as `char::to_ascii_lowercase` does it.
pub open spec fn lower_char(c: char) -> char {
    if 'A' <= c && c <= 'Z' {
        ((c as u32) + 32) as char
    } else {
        c
    }
}

/// ASCII upper-casing of one character, as `char::to_ascii_uppercase` does it.
pub open spec fn upper_char(c: char) -> char {
    if 'a' <= c && c <= 'z' {
        ((c as u32) - 32) as char
    } else {
        c
    }
}

pub open spec fn lower_seq(s: Seq<char>) -> Seq<char> {
    s.map_values(|c: char| lower_char(c))
}

pub open spec fn upper_seq(s: Seq<char>) -> Seq<char> {
    s.map_values(|c: char| upper_char(c))
}

/// Copy the characters of a string into a vector.
pub fn chars_of(s: &str) -> (v: Vec<char>)
    ensures
        v@ == s@,
{
    let n = s.unicode_len();
    let mut v: Vec<char> = Vec::new();
    let mut i: usize = 0;
    while i < n
        invariant
            n == s@.len(),
            i <= n,
            v@ == s@.subrange(0, i as int),
        decreases n - i,
    {
        let c = s.get_char(i);
        v.push(c);
        i = i + 1;
        assert(v@ =~= s@.subrange(0, i as int));
    }
    assert(v@ =~= s@);
    v
}

/// What `str::to_lowercase` yields: Unicode lower-casing.
pub uninterp spec fn unicode_lower(s: Seq<char>) -> Seq<char>;

/// `str::to_lowercase`: the lowercase equivalent of a string, by the
/// Unicode `Lowercase` property; this contract only names it.
#[verifier::external_body]
pub(crate) fn to_lowercase(s: &str) -> (r: String)
    ensures
        r@ == unicode_lower(s@),
{
    s.to_lowercase()
}

/// Append one character (std `String::push`).
#[verifier::external_body]
pub(crate) fn push_char(s: &mut String, c: char)
    ensures
        final(s)@ == old(s)@.push(c),
{
    s.push(c);
}

/// Append the characters of `t`.
pub fn push_text(s: &mut String, t: &str)
    ensures
        final(s)@ == old(s)@ + t@,
{
    let v = chars_of(t);
    let ghost start = s@;
    let mut i: usize = 0;
    while i < v.len()
        invariant
            i <= v@.len(),
            v@ == t@,
            s@ == start + v@.subrange(0, i as int),
        decreases v.len() - i,
    {
        push_char(s, v[i]);
        i = i + 1;
        assert(s@ =~= start + v@.subrange(0, i as int));
    }
    assert(v@.subrange(0, v@.len() as int) =~= v@);
}

/// Build a `String` holding the characters of `v[from..to]`.
pub fn string_from_range(v: &Vec<char>, from: usize, to: usize) -> (s: String)
    requires
        from <= to <= v@.len(),
    ensures
        s@ == v@.subrange(from as int, to as int),
{
    let mut s = String::new();
    let mut i = from;
    while i < to
        invariant
            from <= i <= to <= v@.len(),
            s@ == v@.subrange(from as int, i as int),
        decreases to - i,
    {
        push_char(&mut s, v[i]);
        i = i + 1;
        assert(s@ =~= v@.subrange(from as int, i as int));
    }
    s
}

/// Build a `String` holding all of `v`.
pub fn string_from_chars(v: &Vec<char>) -> (s: String)
    ensures
        s@ == v@,
{
    let s = string_from_range(v, 0, v.len());
    assert(v@.subrange(0, v@.len() as int) =~= v@);
    s
}

/// An owned copy of a string slice.
pub fn owned(s: &str) -> (r: String)
    ensures
        r@ == s@,
{
    String::from_str(s)
}

/// Do two character sequences agree?
pub fn chars_eq(a: &Vec<char>, b: &Vec<char>) -> (r: bool)
    ensures
        r == (a@ == b@),
{
    if a.len() != b.len() {
        return false;
    }
    let mut i: usize = 0;
    while i < a.len()
        invariant
            a@.len() == b@.len(),
            i <= a@.len(),
            forall|j: int| 0 <= j < i ==> a@[j] == b@[j],
        decreases a.len() - i,
    {
        if a[i] != b[i] {
            return false;
        }
        i = i + 1;
    }
    assert(a@ =~= b@);
    true
}

/// String-slice equality.
pub fn str_eq(a: &str, b: &str) -> (r: bool)
    ensures
        r == (a@ == b@),
{
    let n = a.unicode_len();
    let m = b.unicode_len();
    if n != m {
        return false;
    }
    let mut i: usize = 0;
    while i < n
        invariant
            n == a@.len(),
            m == b@.len(),
            n == m,
            i <= n,
            forall|j: int| 0 <= j < i ==> a@[j] == b@[j],
        decreases n - i,
    {
        if a.get_char(i) != b.get_char(i) {
            return false;
        }
        i = i + 1;
    }
    assert(a@ =~= b@);
    true
}

/// Does `v[at..]` begin with `p`?
pub fn chars_occur_at(v: &Vec<char>, p: &Vec<char>, at: usize) -> (r: bool)
    requires
        at <= v@.len(),
    ensures
        r == occurs_at(v@, p@, at as int),
{
    if p.len() > v.len() - at {
        return false;
    }
    let mut i: usize = 0;
    while i < p.len()
        invariant
            at + p@.len() <= v@.len(),
            v@.len() <= usize::MAX,
            i <= p@.len(),
            forall|j: int| 0 <= j < i ==> v@[at + j] == p@[j],
        decreases p.len() - i,
    {
        if v[at + i] != p[i] {
            assert(v@.subrange(at as int, at + p@.len())[i as int] != p@[i as int]);
            return false;
        }
        i = i + 1;
    }
    assert(v@.subrange(at as int, at + p@.len()) =~= p@);
    true
}

/// Does `s` begin with `p`?
pub fn chars_starts_with(s: &Vec<char>, p: &Vec<char>) -> (r: bool)
    ensures
        r == is_prefix(p@, s@),
{
    chars_occur_at(s, p, 0)
}

/// Does `s` end with `p`?
pub fn chars_ends_with(s: &Vec<char>, p: &Vec<char>) -> (r: bool)
    ensures
        r == is_suffix(p@, s@),
{
    if p.len() > s.len() {
        return false;
    }
    chars_occur_at(s, p, s.len() - p.len())
}

/// First position at which `p` occurs in `s`, if any.
pub fn chars_find(s: &Vec<char>, p: &Vec<char>) -> (r: Option<usize>)
    ensures
        r matches Some(i) ==> occurs_at(s@, p@, i as int) && forall|j: int|
            0 <= j < i ==> !occurs_at(s@, p@, j),
        r is None ==> !contains_seq(s@, p@),
{
    let mut i: usize = 0;
    while i < s.len()
        invariant
            i <= s@.len(),
            forall|j: int| 0 <= j < i ==> !occurs_at(s@, p@, j),
        decreases s@.len() - i,
    {
        if chars_occur_at(s, p, i) {
            return Some(i);
        }
        i = i + 1;
    }
    if chars_occur_at(s, p, i) {
        return Some(i);
    }

    assert(forall|j: int| 0 <= j <= i ==> !occurs_at(s@, p@, j));
    assert forall|j: int| !occurs_at(s@, p@, j) by {
        if 0 <= j < i {
        } else if j > s@.len() {
        }
    }
    None
}

/// Does `p` occur anywhere in `s`?
pub fn chars_contains(s: &Vec<char>, p: &Vec<char>) -> (r: bool)
    ensures
        r == contains_seq(s@, p@),
{
    chars_find(s, p).is_some()
}

/// `str::contains` on string slices.
pub fn str_contains(s: &str, p: &str) -> (r: bool)
    ensures
        r == contains_seq(s@, p@),
{
    let sv = chars_of(s);
    let pv = chars_of(p);
    chars_contains(&sv, &pv)
}

/// `str::starts_with` on string slices.
pub fn str_starts_with(s: &str, p: &str) -> (r: bool)
    ensures
        r == is_prefix(p@, s@),
{
    let sv = chars_of(s);
    let pv = chars_of(p);
    chars_starts_with(&sv, &pv)
}

/// `str::ends_with` on string slices.
pub fn str_ends_with(s: &str, p: &str) -> (r: bool)
    ensures
        r == is_suffix(p@, s@),
{
    let sv = chars_of(s);
    let pv = chars_of(p);
    chars_ends_with(&sv, &pv)
}

/// ASCII lower-casing of a character sequence.
pub fn chars_lower(v: &Vec<char>) -> (r: Vec<char>)
    ensures
        r@ == lower_seq(v@),
{
    let mut r: Vec<char> = Vec::new();
    let mut i: usize = 0;
    while i < v.len()
        invariant
            i <= v@.len(),
            r@ == lower_seq(v@.subrange(0, i as int)),
        decreases v.len() - i,
    {
        let c = v[i];
        let d = if 'A' <= c && c <= 'Z' {
            ((c as u32) + 32) as u8 as char
        } else {
            c
        };
        assert(d == lower_char(c)) by {
            if 'A' <= c && c <= 'Z' {
                assert((c as u32) + 32 < 256);
            }
        }
        r.push(d);
        i = i + 1;
        assert(r@ =~= lower_seq(v@.subrange(0, i as int)));
    }
    assert(v@.subrange(0, v@.len() as int) =~= v@);
    r
}

/// ASCII upper-casing of a character sequence.
pub fn chars_upper(v: &Vec<char>) -> (r: Vec<char>)
    ensures
        r@ == upper_seq(v@),
{
    let mut r: Vec<char> = Vec::new();
    let mut i: usize = 0;
    while i < v.len()
        invariant
            i <= v@.len(),
            r@ == upper_seq(v@.subrange(0, i as int)),
        decreases v.len() - i,
    {
        let c = v[i];
        let d = if 'a' <= c && c <= 'z' {
            ((c as u32) - 32) as u8 as char
        } else {
            c
        };
        r.push(d);
        i = i + 1;
        assert(r@ =~= upper_seq(v@.subrange(0, i as int)));
    }
    assert(v@.subrange(0, v@.len() as int) =~= v@);
    r
}

/// Unicode `White_Space`, the set `char::is_whitespace` tests.
pub open spec fn is_ws(c: char) -> bool {
    ||| ('\u{9}' <= c && c <= '\u{d}')
    ||| c == ' '
    ||| c == '\u{85}'
    ||| c == '\u{a0}'
    ||| c == '\u{1680}'
    ||| ('\u{2000}' <= c && c <= '\u{200a}')
    ||| c == '\u{2028}'
    ||| c == '\u{2029}'
    ||| c == '\u{202f}'
    ||| c == '\u{205f}'
    ||| c == '\u{3000}'
}

/// `char::is_whitespace`.
pub fn char_is_ws(c: char) -> (r: bool)
    ensures
        r == is_ws(c),
{
    ('\u{9}' <= c && c <= '\u{d}') || c == ' ' || c == '\u{85}' || c == '\u{a0}' || c == '\u{1680}'
        || ('\u{2000}' <= c && c <= '\u{200a}') || c == '\u{2028}' || c == '\u{2029}' || c
        == '\u{202f}' || c == '\u{205f}' || c == '\u{3000}'
}

/// `s` with trailing characters accepted by `strip` removed.
pub open spec fn strip_end(s: Seq<char>, strip: spec_fn(char) -> bool) -> Seq<char>
    decreases s.len(),
{
    if s.len() > 0 && strip(s.last()) {
        strip_end(s.drop_last(), strip)
    } else {
        s
    }
}

/// `s` with leading characters accepted by `strip` removed.
pub open spec fn strip_start(s: Seq<char>, strip: spec_fn(char) -> bool) -> Seq<char>
    decreases s.len(),
{
    if s.len() > 0 && strip(s[0]) {
        strip_start(s.drop_first(), strip)
    } else {
        s
    }
}

pub open spec fn ws_pred() -> spec_fn(char) -> bool {
    |c: char| is_ws(c)
}

pub open spec fn in_set_pred(set: Seq<char>) -> spec_fn(char) -> bool {
    |c: char| set.contains(c)
}

/// `str::trim_end`.
pub open spec fn trim_end_ws(s: Seq<char>) -> Seq<char> {
    strip_end(s, ws_pred())
}

/// `str::trim`.
pub open spec fn trim_ws(s: Seq<char>) -> Seq<char> {
    strip_start(strip_end(s, ws_pred()), ws_pred())
}

/// `str::trim_matches` with a set of characters.
pub open spec fn trim_set(s: Seq<char>, set: Seq<char>) -> Seq<char> {
    strip_start(strip_end(s, in_set_pred(set)), in_set_pred(set))
}

/// `str::trim_start_matches` with a set of characters.
pub open spec fn trim_start_set(s: Seq<char>, set: Seq<char>) -> Seq<char> {
    strip_start(s, in_set_pred(set))
}

proof fn lemma_strip_end_take(s: Seq<char>, strip: spec_fn(char) -> bool, k: int)
    requires
        0 <= k <= s.len(),
        forall|j: int| k <= j < s.len() ==> strip(#[trigger] s[j]),
    ensures
        strip_end(s, strip) == strip_end(s.subrange(0, k), strip),
    decreases s.len() - k,
{
    if k < s.len() {
        let d = s.drop_last();
        assert(strip(s[s.len() - 1]));
        assert(strip_end(s, strip) == strip_end(d, strip));
        assert forall|j: int| k <= j < d.len() implies strip(#[trigger] d[j]) by {
            assert(d[j] == s[j]);
        }
        lemma_strip_end_take(d, strip, k);
        assert(d.subrange(0, k) =~= s.subrange(0, k));
    } else {
        assert(s.subrange(0, k) =~= s);
    }
}

proof fn lemma_strip_start_skip(s: Seq<char>, strip: spec_fn(char) -> bool, k: int)
    requires
        0 <= k <= s.len(),
        forall|j: int| 0 <= j < k ==> strip(#[trigger] s[j]),
    ensures
        strip_start(s, strip) == strip_start(s.subrange(k, s.len() as int), strip),
    decreases k,
{
    if k > 0 {
        let d = s.drop_first();
        assert(strip(s[0]));
        assert(strip_start(s, strip) == strip_start(d, strip));
        assert forall|j: int| 0 <= j < k - 1 implies strip(#[trigger] d[j]) by {
            assert(d[j] == s[j + 1]);
        }
        lemma_strip_start_skip(d, strip, k - 1);
        assert(d.subrange(k - 1, d.len() as int) =~= s.subrange(k, s.len() as int));
    } else {
        assert(s.subrange(0, s.len() as int) =~= s);
    }
}

/// Index after the last kept character when stripping the end of `v[..to]`
/// by membership in `set` (or by whitespace when `ws` is set).
fn strip_end_index(v: &Vec<char>, to: usize, set: &Vec<char>, ws: bool) -> (k: usize)
    requires
        to <= v@.len(),
    ensures
        k <= to,
        ws ==> strip_end(v@.subrange(0, to as int), ws_pred()) == v@.subrange(0, k as int),
        !ws ==> strip_end(v@.subrange(0, to as int), in_set_pred(set@)) == v@.subrange(0, k as int),
{
    let ghost pred = if ws { ws_pred() } else { in_set_pred(set@) };
    let mut k = to;
    loop
        invariant_except_break
            k <= to <= v@.len(),
            pred == (if ws { ws_pred() } else { in_set_pred(set@) }),
            forall|j: int| k <= j < to ==> pred(#[trigger] v@[j]),
        ensures
            k <= to <= v@.len(),
            forall|j: int| k <= j < to ==> pred(#[trigger] v@[j]),
            k == 0 || !pred(v@[k - 1]),
        decreases k,
    {
        if k == 0 {
            break;
        }
        let c = v[k - 1];
        let hit = if ws { char_is_ws(c) } else { crate::split::is_sep(c, set) };
        if !hit {
            break;
        }
        k = k - 1;
    }
    proof {
        let t = v@.subrange(0, to as int);
        assert forall|j: int| k <= j < t.len() implies pred(#[trigger] t[j]) by {
            assert(t[j] == v@[j]);
        }
        lemma_strip_end_take(t, pred, k as int);
        assert(t.subrange(0, k as int) =~= v@.subrange(0, k as int));
        let u = v@.subrange(0, k as int);
        if k > 0 {
            assert(u.last() == v@[k - 1]);
        }
        assert(strip_end(u, pred) == u);
    }
    k
}

/// Index of the first kept character when stripping the start of
/// `v[from..to]`.
fn strip_start_index(v: &Vec<char>, from: usize, to: usize, set: &Vec<char>, ws: bool) -> (k: usize)
    requires
        from <= to <= v@.len(),
    ensures
        from <= k <= to,
        ws ==> strip_start(v@.subrange(from as int, to as int), ws_pred()) == v@.subrange(k as int, to as int),
        !ws ==> strip_start(v@.subrange(from as int, to as int), in_set_pred(set@)) == v@.subrange(k as int, to as int),
{
    let ghost pred = if ws { ws_pred() } else { in_set_pred(set@) };
    let mut k = from;
    loop
        invariant_except_break
            from <= k <= to <= v@.len(),
            pred == (if ws { ws_pred() } else { in_set_pred(set@) }),
            forall|j: int| from <= j < k ==> pred(#[trigger] v@[j]),
        ensures
            from <= k <= to <= v@.len(),
            forall|j: int| from <= j < k ==> pred(#[trigger] v@[j]),
            k == to || !pred(v@[k as int]),
        decreases to - k,
    {
        if k == to {
            break;
        }
        let c = v[k];
        let hit = if ws { char_is_ws(c) } else { crate::split::is_sep(c, set) };
        if !hit {
            break;
        }
        k = k + 1;
    }
    proof {
        let t = v@.subrange(from as int, to as int);
        assert forall|j: int| 0 <= j < k - from implies pred(#[trigger] t[j]) by {
            assert(t[j] == v@[from + j]);
        }
        lemma_strip_start_skip(t, pred, k - from);
        assert(t.subrange(k - from, t.len() as int) =~= v@.subrange(k as int, to as int));
        let u = v@.subrange(k as int, to as int);
        if k < to {
            assert(u[0] == v@[k as int]);
        }
        assert(strip_start(u, pred) == u);
    }
    k
}

/// `str::trim_end` on a character vector.
pub fn trim_end_chars(v: &Vec<char>) -> (r: Vec<char>)
    ensures
        r@ == trim_end_ws(v@),
{
    let none: Vec<char> = Vec::new();
    let k = strip_end_index(v, v.len(), &none, true);
    assert(v@.subrange(0, v@.len() as int) =~= v@);
    let s = slice_chars(v, 0, k);
    s
}

/// `str::trim` on a character vector.
pub fn trim_chars(v: &Vec<char>) -> (r: Vec<char>)
    ensures
        r@ == trim_ws(v@),
{
    let none: Vec<char> = Vec::new();
    let e = strip_end_index(v, v.len(), &none, true);
    assert(v@.subrange(0, v@.len() as int) =~= v@);
    let b = strip_start_index(v, 0, e, &none, true);
    slice_chars(v, b, e)
}

/// `str::trim_matches` with a set of characters.
pub fn trim_set_chars(v: &Vec<char>, set: &Vec<char>) -> (r: Vec<char>)
    ensures
        r@ == trim_set(v@, set@),
{
    let e = strip_end_index(v, v.len(), set, false);
    assert(v@.subrange(0, v@.len() as int) =~= v@);
    let b = strip_start_index(v, 0, e, set, false);
    slice_chars(v, b, e)
}

/// `str::trim_start_matches` with a set of characters.
pub fn trim_start_set_chars(v: &Vec<char>, set: &Vec<char>) -> (r: Vec<char>)
    ensures
        r@ == trim_start_set(v@, set@),
{
    let b = strip_start_index(v, 0, v.len(), set, false);
    assert(v@.subrange(0, v@.len() as int) =~= v@);
    slice_chars(v, b, v.len())
}

/// A copy of `v[from..to]`.
pub fn slice_chars(v: &Vec<char>, from: usize, to: usize) -> (r: Vec<char>)
    requires
        from <= to <= v@.len(),
    ensures
        r@ == v@.subrange(from as int, to as int),
{
    let mut r: Vec<char> = Vec::new();
    let mut i = from;
    while i < to
        invariant
            from <= i <= to <= v@.len(),
            r@ == v@.subrange(from as int, i as int),
        decreases to - i,
    {
        r.push(v[i]);
        i = i + 1;
        assert(r@ =~= v@.subrange(from as int, i as int));
    }
    r
}

/// A vector holding the two characters given, for separator sets.
pub fn two_chars(a: char, b: char) -> (r: Vec<char>)
    ensures
        r@ == seq![a, b],
{
    let mut r: Vec<char> = Vec::new();
    r.push(a);
    r.push(b);
    assert(r@ =~= seq![a, b]);
    r
}

/// A vector holding the one character given.
pub fn one_char(a: char) -> (r: Vec<char>)
    ensures
        r@ == seq![a],
{
    let mut r: Vec<char> = Vec::new();
    r.push(a);
    assert(r@ =~= seq![a]);
    r
}

} // verus!
