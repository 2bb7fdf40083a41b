//! Callee-name tests the site-context classifier applies to the call that
//! encloses a match: registry lookups, equality tests, collection
//! membership, map insertion and test-framework assertions.
use vstd::prelude::*;
use crate::rules::Language;
use crate::split::{last_segment, first_segment, last_segment_of, first_segment_of};
use crate::tables::strs_view;
use crate::text::{is_prefix, lower_seq, chars_of, chars_lower, chars_starts_with, chars_eq, two_chars, one_char, string_from_chars};

verus! {

/// Is `s` one of the strings in `list`?
pub fn in_strs(s: &Vec<char>, list: &Vec<&'static str>) -> (r: bool)
    ensures
        r == strs_view(list@).contains(s@),
{
    let mut i: usize = 0;
    while i < list.len()
        invariant
            i <= list@.len(),
            forall|j: int| 0 <= j < i ==> #[trigger] strs_view(list@)[j] != s@,
        decreases list.len() - i,
    {
        if chars_eq(s, &chars_of(list[i])) {
            assert(strs_view(list@)[i as int] == s@);
            return true;
        }
        i = i + 1;
    }
    proof {
        if strs_view(list@).contains(s@) {
            let k = choose|k: int| 0 <= k < strs_view(list@).len() && strs_view(list@)[k] == s@;
            assert(strs_view(list@)[k] != s@);
        }
    }
    false
}

/// The last `.`/`:` segment of a callee, cut at the first `<`.
pub open spec fn callee_head_spec(c: Seq<char>) -> Seq<char> {
    first_segment(last_segment(c, seq!['.', ':']), seq!['<'])
}

/// Last dotted / path segment of a callee, generics stripped: `Arrays.asList`
/// and `asList` answer the same.
pub fn callee_head(callee: &str) -> (r: String)
    ensures
        r@ == callee_head_spec(callee@),
{
    string_from_chars(&callee_head_chars(callee))
}

fn callee_head_chars(callee: &str) -> (r: Vec<char>)
    ensures
        r@ == callee_head_spec(callee@),
{
    let v = chars_of(callee);
    let seps = two_chars('.', ':');
    let last = last_segment_of(&v, &seps);
    first_segment_of(&last, &one_char('<'))
}

/// A call that retrieves a registry entry by name: the last segment,
/// lower-cased, starts with `lookup`.
pub open spec fn registry_lookup_spec(c: Seq<char>) -> bool {
    is_prefix("lookup"@, lower_seq(last_segment(c, seq!['.', ':'])))
}

/// Does `callee` retrieve a registry entry by name (`LookupSigningMethod`,
/// `lookupBuiltinSignatureAlgorithm`, ...)?
pub fn is_registry_lookup_callee(callee: &str) -> (r: bool)
    ensures
        r == registry_lookup_spec(callee@),
{
    let v = chars_of(callee);
    let last = last_segment_of(&v, &two_chars('.', ':'));
    let lower = chars_lower(&last);
    chars_starts_with(&lower, &chars_of("lookup"))
}

pub open spec fn equality_heads() -> Seq<Seq<char>> {
    seq!["equals"@, "equalsIgnoreCase"@]
}

pub open spec fn membership_heads() -> Seq<Seq<char>> {
    seq!["add"@, "addAll"@, "asList"@, "of"@, "contains"@, "containsAll"@, "remove"@]
}

pub open spec fn map_insert_heads() -> Seq<Seq<char>> {
    seq!["put"@, "putAll"@, "putIfAbsent"@]
}

/// An equality test: `equals` or `equalsIgnoreCase`.
pub fn is_equality_callee(callee: &str) -> (r: bool)
    ensures
        r == equality_heads().contains(callee_head_spec(callee@)),
{
    let list = vec!["equals", "equalsIgnoreCase"];
    assert(strs_view(list@) =~= equality_heads());
    in_strs(&callee_head_chars(callee), &list)
}

/// A collection-membership call: the shape that builds a supported-algorithm
/// set.
pub fn is_collection_membership_callee(callee: &str) -> (r: bool)
    ensures
        r == membership_heads().contains(callee_head_spec(callee@)),
{
    let list = vec!["add", "addAll", "asList", "of", "contains", "containsAll", "remove"];
    assert(strs_view(list@) =~= membership_heads());
    in_strs(&callee_head_chars(callee), &list)
}

/// A map-insertion call: `put`, `putAll` or `putIfAbsent`.
pub fn is_map_insert_callee(callee: &str) -> (r: bool)
    ensures
        r == map_insert_heads().contains(callee_head_spec(callee@)),
{
    let list = vec!["put", "putAll", "putIfAbsent"];
    assert(strs_view(list@) =~= map_insert_heads());
    in_strs(&callee_head_chars(callee), &list)
}

/// The test-framework assertion names of each language.
pub open spec fn assertion_heads(l: Language) -> Seq<Seq<char>> {
    match l {
        Language::Go => seq![
            "Equal"@, "Equals"@, "Equalf"@, "NotEqual"@, "True"@, "False"@, "Nil"@, "NotNil"@,
            "Empty"@, "NotEmpty"@, "Contains"@, "NotContains"@, "Error"@, "NoError"@,
            "ErrorIs"@, "ErrorContains"@, "EqualValues"@, "Same"@, "NotSame"@, "JSONEq"@,
            "ElementsMatch"@, "Len"@, "EqualError"@, "Regexp"@,
        ],
        Language::Java => seq![
            "assertEquals"@, "assertNotEquals"@, "assertTrue"@, "assertFalse"@, "assertNull"@,
            "assertNotNull"@, "assertThat"@, "assertSame"@, "assertArrayEquals"@,
        ],
        Language::JavaScript | Language::TypeScript => seq![
            "equal"@, "deepEqual"@, "strictEqual"@, "notEqual"@, "toBe"@, "toEqual"@,
            "toMatch"@, "toContain"@, "expect"@,
        ],
        Language::Python => seq![
            "assertEqual"@, "assertNotEqual"@, "assertTrue"@, "assertFalse"@, "assertIs"@,
            "assertIsNone"@, "assertIn"@, "assertRaises"@, "assertAlmostEqual"@,
        ],
        Language::Rust => seq![
            "assert_eq"@, "assert_ne"@, "assert"@, "debug_assert_eq"@, "debug_assert_ne"@,
        ],
        Language::C | Language::Cpp => seq![
            "EXPECT_EQ"@, "ASSERT_EQ"@, "EXPECT_NE"@, "ASSERT_NE"@, "EXPECT_TRUE"@,
            "ASSERT_TRUE"@, "EXPECT_STREQ"@, "ASSERT_STREQ"@, "ExpectNull"@,
        ],
        Language::CSharp => seq!["Equal"@, "True"@, "False"@, "Same"@, "NotEqual"@, "AreEqual"@],
    }
}

fn assertion_list(l: Language) -> (r: Vec<&'static str>)
    ensures
        strs_view(r@) == assertion_heads(l),
{
    let r = match l {
        Language::Go => vec![
            "Equal", "Equals", "Equalf", "NotEqual", "True", "False", "Nil", "NotNil", "Empty",
            "NotEmpty", "Contains", "NotContains", "Error", "NoError", "ErrorIs", "ErrorContains",
            "EqualValues", "Same", "NotSame", "JSONEq", "ElementsMatch", "Len", "EqualError",
            "Regexp",
        ],
        Language::Java => vec![
            "assertEquals", "assertNotEquals", "assertTrue", "assertFalse", "assertNull",
            "assertNotNull", "assertThat", "assertSame", "assertArrayEquals",
        ],
        Language::JavaScript | Language::TypeScript => vec![
            "equal", "deepEqual", "strictEqual", "notEqual", "toBe", "toEqual", "toMatch",
            "toContain", "expect",
        ],
        Language::Python => vec![
            "assertEqual", "assertNotEqual", "assertTrue", "assertFalse", "assertIs",
            "assertIsNone", "assertIn", "assertRaises", "assertAlmostEqual",
        ],
        Language::Rust => vec!["assert_eq", "assert_ne", "assert", "debug_assert_eq", "debug_assert_ne"],
        Language::C | Language::Cpp => vec![
            "EXPECT_EQ", "ASSERT_EQ", "EXPECT_NE", "ASSERT_NE", "EXPECT_TRUE", "ASSERT_TRUE",
            "EXPECT_STREQ", "ASSERT_STREQ", "ExpectNull",
        ],
        Language::CSharp => vec!["Equal", "True", "False", "Same", "NotEqual", "AreEqual"],
    };
    assert(strs_view(r@) =~= assertion_heads(l));
    r
}

/// The head an assertion check reads: the last `.` segment, cut at the
/// first `<`.
pub open spec fn assertion_head_spec(c: Seq<char>) -> Seq<char> {
    first_segment(last_segment(c, seq!['.']), seq!['<'])
}

/// Is `callee` a test-framework assertion of `language`, so that a match in
/// its arguments is low-signal?
pub fn is_test_assertion_callee(callee: &str, language: Language) -> (r: bool)
    ensures
        r == assertion_heads(language).contains(assertion_head_spec(callee@)),
{
    let v = chars_of(callee);
    let dot = one_char('.');
    let last = last_segment_of(&v, &dot);
    let head = first_segment_of(&last, &one_char('<'));
    in_strs(&head, &assertion_list(language))
}

} // verus!
