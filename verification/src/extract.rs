//! What the extract layer hands the classify layer: captured argument values
//! and the raw match record for one detected site.
use vstd::prelude::*;
use crate::findings::SiteContext;
use crate::text::push_char;

verus! {

/// A captured argument from an extract pattern.
#[derive(Debug, Clone)]
pub enum ArgValue {
    Int(i64),
    Str(String),
}

/// The mathematical value of an [`ArgValue`].
pub enum ArgVal {
    Int(int),
    Str(Seq<char>),
}

impl View for ArgValue {
    type V = ArgVal;

    open spec fn view(&self) -> ArgVal {
        match self {
            ArgValue::Int(n) => ArgVal::Int(*n as int),
            ArgValue::Str(s) => ArgVal::Str(s@),
        }
    }
}

/// The decimal digits of a natural number, most significant first.
pub open spec fn nat_digits(n: nat) -> Seq<char>
    decreases n,
{
    if n < 10 {
        seq![digit_char(n)]
    } else {
        nat_digits(n / 10).push(digit_char(n % 10))
    }
}

pub open spec fn digit_char(d: nat) -> char {
    (('0' as nat) + d) as char
}

/// The decimal text of an integer, as `i64::to_string` writes it.
pub open spec fn int_text(n: int) -> Seq<char> {
    if n < 0 {
        seq!['-'] + nat_digits((-n) as nat)
    } else {
        nat_digits(n as nat)
    }
}

/// The text an argument value substitutes into a message.
pub open spec fn arg_text(v: ArgVal) -> Seq<char> {
    match v {
        ArgVal::Int(n) => int_text(n),
        ArgVal::Str(s) => s,
    }
}

/// Decimal digits of `n`, built least significant first and then reversed.
pub fn digits_of(n: u64) -> (r: Vec<char>)
    ensures
        r@ == nat_digits(n as nat),
    decreases n,
{
    if n < 10 {
        let c = ((n as u8) + 48) as char;
        let mut v: Vec<char> = Vec::new();
        v.push(c);
        assert(v@ =~= seq![digit_char(n as nat)]);
        v
    } else {
        let mut v = digits_of(n / 10);
        let d = n % 10;
        let c = ((d as u8) + 48) as char;
        v.push(c);
        v
    }
}

impl ArgValue {
    /// The value as message text: an integer in decimal, a string as is.
    pub fn as_str(&self) -> (s: String)
        ensures
            s@ == arg_text(self@),
    {
        match self {
            ArgValue::Int(n) => {
                let mut s = String::new();
                let mag: u64 = if *n < 0 {
                    push_char(&mut s, '-');
                    if *n == i64::MIN {
                        9223372036854775808u64
                    } else {
                        (-*n) as u64
                    }
                } else {
                    *n as u64
                };
                let ds = digits_of(mag);
                let mut i: usize = 0;
                let ghost pre = s@;
                while i < ds.len()
                    invariant
                        i <= ds@.len(),
                        s@ == pre + ds@.subrange(0, i as int),
                    decreases ds.len() - i,
                {
                    push_char(&mut s, ds[i]);
                    i = i + 1;
                    assert(s@ =~= pre + ds@.subrange(0, i as int));
                }
                assert(ds@.subrange(0, ds@.len() as int) =~= ds@);
                assert(s@ =~= arg_text(self@));
                s
            }
            ArgValue::Str(t) => t.clone(),
        }
    }
}

/// The first value bound to `key` in a sequence of entries.
pub open spec fn entries_lookup(entries: Seq<(Seq<char>, ArgVal)>, key: Seq<char>) -> Option<ArgVal>
    decreases entries.len(),
{
    if entries.len() == 0 {
        None
    } else if entries[0].0 == key {
        Some(entries[0].1)
    } else {
        entries_lookup(entries.drop_first(), key)
    }
}

/// Named argument captures, in insertion order; a later insert of a key
/// replaces the earlier value.
#[derive(Debug, Clone)]
pub struct ArgMap {
    pub entries: Vec<(String, ArgValue)>,
}

impl View for ArgMap {
    type V = Seq<(Seq<char>, ArgVal)>;

    open spec fn view(&self) -> Seq<(Seq<char>, ArgVal)> {
        self.entries@.map_values(|e: (String, ArgValue)| (e.0@, e.1@))
    }
}

impl ArgMap {
    /// The value bound to `key`.
    pub open spec fn get_spec(&self, key: Seq<char>) -> Option<ArgVal> {
        entries_lookup(self@, key)
    }

    /// No captures.
    pub fn new() -> (m: ArgMap)
        ensures
            m@ == Seq::<(Seq<char>, ArgVal)>::empty(),
            keys_distinct(m@),
    {
        let m = ArgMap { entries: Vec::new() };
        assert(m@ =~= Seq::<(Seq<char>, ArgVal)>::empty());
        m
    }

    /// Bind `key` to `value`: the existing entry for `key` is replaced in
    /// place, otherwise the binding is appended.
    pub fn insert(&mut self, key: String, value: ArgValue)
        ensures
            final(self)@ == insert_entry(old(self)@, key@, value@),
            keys_distinct(old(self)@) ==> keys_distinct(final(self)@),
    {
        proof {
            if keys_distinct(old(self)@) {
                lemma_insert_keeps_keys_distinct(old(self)@, key@, value@);
            }
        }
        let mut i: usize = 0;
        while i < self.entries.len()
            invariant
                i <= self@.len(),
                self@ == old(self)@,
                forall|j: int| 0 <= j < i ==> self@[j].0 != key@,
            decreases self.entries.len() - i,
        {
            if self.entries[i].0 == key {
                let ghost before = self@;
                self.entries.set(i, (key, value));
                proof {
                    lemma_first_index(before, key@, i as int);
                    assert(self@ =~= before.update(i as int, (key@, value@)));
                }
                return;
            }
            i = i + 1;
        }
        let ghost before = self@;
        self.entries.push((key, value));
        proof {
            lemma_no_index(before, key@);
            assert(self@ =~= before.push((key@, value@)));
        }
    }

    /// The value bound to `key`, if any.
    pub fn get(&self, key: &str) -> (r: Option<&ArgValue>)
        ensures
            match r {
                Some(v) => self.get_spec(key@) == Some(v@),
                None => self.get_spec(key@) is None,
            },
    {
        let mut i: usize = 0;
        assert(self@.subrange(0, self@.len() as int) =~= self@);
        while i < self.entries.len()
            invariant
                i <= self@.len(),
                entries_lookup(self@, key@) == entries_lookup(self@.subrange(i as int, self@.len() as int), key@),
            decreases self.entries.len() - i,
        {
            let ghost rest = self@.subrange(i as int, self@.len() as int);
            assert(rest.drop_first() =~= self@.subrange(i + 1, self@.len() as int));
            if crate::text::str_eq(self.entries[i].0.as_str(), key) {
                return Some(&self.entries[i].1);
            }
            i = i + 1;
        }
        None
    }
}

/// Index of the first entry whose key is `key`.
pub open spec fn first_key_index(entries: Seq<(Seq<char>, ArgVal)>, key: Seq<char>) -> int
    decreases entries.len(),
{
    if entries.len() == 0 {
        -1
    } else if entries[0].0 == key {
        0
    } else {
        let r = first_key_index(entries.drop_first(), key);
        if r < 0 { -1 } else { r + 1 }
    }
}

/// The entries after binding `key` to `value` in place or at the end.
pub open spec fn insert_entry(entries: Seq<(Seq<char>, ArgVal)>, key: Seq<char>, value: ArgVal) -> Seq<(Seq<char>, ArgVal)> {
    let i = first_key_index(entries, key);
    if i < 0 {
        entries.push((key, value))
    } else {
        entries.update(i, (key, value))
    }
}

proof fn lemma_first_index(entries: Seq<(Seq<char>, ArgVal)>, key: Seq<char>, i: int)
    requires
        0 <= i < entries.len(),
        entries[i].0 == key,
        forall|j: int| 0 <= j < i ==> entries[j].0 != key,
    ensures
        first_key_index(entries, key) == i,
    decreases i,
{
    if i > 0 {
        lemma_first_index(entries.drop_first(), key, i - 1);
    }
}

proof fn lemma_first_index_bounds(entries: Seq<(Seq<char>, ArgVal)>, key: Seq<char>)
    ensures
        -1 <= first_key_index(entries, key) < entries.len(),
    decreases entries.len(),
{
    if entries.len() > 0 {
        lemma_first_index_bounds(entries.drop_first(), key);
    }
}

proof fn lemma_no_index(entries: Seq<(Seq<char>, ArgVal)>, key: Seq<char>)
    requires
        forall|j: int| 0 <= j < entries.len() ==> entries[j].0 != key,
    ensures
        first_key_index(entries, key) == -1,
    decreases entries.len(),
{
    if entries.len() > 0 {
        lemma_no_index(entries.drop_first(), key);
    }
}

/// No key is bound twice.
pub open spec fn keys_distinct(entries: Seq<(Seq<char>, ArgVal)>) -> bool {
    forall|i: int, j: int| 0 <= i < j < entries.len() ==> entries[i].0 != entries[j].0
}

proof fn lemma_first_index_found(entries: Seq<(Seq<char>, ArgVal)>, key: Seq<char>)
    ensures
        first_key_index(entries, key) == -1 ==> forall|j: int| 0 <= j < entries.len() ==> #[trigger] entries[j].0 != key,
        first_key_index(entries, key) >= 0 ==> entries[first_key_index(entries, key)].0 == key,
    decreases entries.len(),
{
    if entries.len() > 0 {
        lemma_first_index_found(entries.drop_first(), key);
        if entries[0].0 != key {
            let r = first_key_index(entries.drop_first(), key);
            lemma_first_index_bounds(entries.drop_first(), key);
            if r >= 0 {
                assert(entries[r + 1] == entries.drop_first()[r]);
            }
            assert forall|j: int| 1 <= j < entries.len() implies #[trigger] entries[j].0 == entries.drop_first()[j - 1].0 by {}
        }
    }
}

/// Inserting keeps every key bound at most once.
pub proof fn lemma_insert_keeps_keys_distinct(entries: Seq<(Seq<char>, ArgVal)>, key: Seq<char>, value: ArgVal)
    requires
        keys_distinct(entries),
    ensures
        keys_distinct(insert_entry(entries, key, value)),
{
    lemma_first_index_found(entries, key);
    lemma_first_index_bounds(entries, key);
    let n = insert_entry(entries, key, value);
    let r = first_key_index(entries, key);
    assert forall|i: int, j: int| 0 <= i < j < n.len() implies n[i].0 != n[j].0 by {
        if r < 0 {
            if j == entries.len() {
                assert(entries[i].0 != key);
            }
        } else {
            if i == r {
                assert(entries[j].0 != entries[r].0);
            } else if j == r {
                assert(entries[i].0 != entries[r].0);
            }
        }
    }
}

/// Inserting `key` makes it map to `value` and leaves every other key alone.
#[verifier::spinoff_prover]
pub proof fn lemma_insert_get(entries: Seq<(Seq<char>, ArgVal)>, key: Seq<char>, value: ArgVal, other: Seq<char>)
    ensures
        entries_lookup(insert_entry(entries, key, value), key) == Some(value),
        other != key ==> entries_lookup(insert_entry(entries, key, value), other) == entries_lookup(entries, other),
    decreases entries.len(),
{
    if entries.len() == 0 {
        let n = insert_entry(entries, key, value);
        assert(n =~= seq![(key, value)]);
        assert(n.drop_first() =~= Seq::<(Seq<char>, ArgVal)>::empty());
        assert(n.len() == 1 && n[0].0 == key);
        assert(entries_lookup(n.drop_first(), other) is None);
        assert(entries_lookup(entries, other) is None);
        if other != key {
            assert(entries_lookup(n, other) == entries_lookup(n.drop_first(), other));
        }
    } else if entries[0].0 == key {
        let n = insert_entry(entries, key, value);
        assert(first_key_index(entries, key) == 0);
        assert(n == entries.update(0, (key, value)));
        assert(n.drop_first() =~= entries.drop_first());
        assert(n.len() > 0 && n[0] == (key, value));
        if other != key {
            assert(entries_lookup(n, other) == entries_lookup(n.drop_first(), other));
            assert(entries_lookup(n, other) == entries_lookup(entries, other));
        }
    } else {
        lemma_insert_get(entries.drop_first(), key, value, other);
        let n = insert_entry(entries, key, value);
        let m = insert_entry(entries.drop_first(), key, value);
        let r = first_key_index(entries.drop_first(), key);
        lemma_first_index_bounds(entries.drop_first(), key);
        if r < 0 {
            assert(first_key_index(entries, key) == -1);
            assert(n == entries.push((key, value)));
            assert(m == entries.drop_first().push((key, value)));
        } else {
            assert(first_key_index(entries, key) == r + 1);
            assert(n == entries.update(r + 1, (key, value)));
            assert(m == entries.drop_first().update(r, (key, value)));
        }
        assert(n.drop_first() =~= m);
        assert(n[0] == entries[0]);
        assert(n.len() > 0);
        if other != key {
            assert(entries_lookup(n, other) == entries_lookup(entries, other));
        }
    }
}

/// One detected site, before classify-layer lookup.
#[derive(Debug, Clone)]
pub struct RawMatch {
    pub api: String,
    pub args: ArgMap,
    pub line: u32,
    pub offset: u32,
    pub symbol: String,
    pub snippet: String,
    /// Syntactic site context of the match.
    pub site_context: SiteContext,
}

/// A detected site as values.
pub struct RawView {
    pub api: Seq<char>,
    pub args: Seq<(Seq<char>, ArgVal)>,
    pub line: u32,
    pub offset: u32,
    pub symbol: Seq<char>,
    pub snippet: Seq<char>,
    pub site_context: SiteContext,
}

impl View for RawMatch {
    type V = RawView;

    open spec fn view(&self) -> RawView {
        RawView {
            api: self.api@,
            args: self.args@,
            line: self.line,
            offset: self.offset,
            symbol: self.symbol@,
            snippet: self.snippet@,
            site_context: self.site_context,
        }
    }
}

} // verus!
