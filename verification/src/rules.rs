//! Two-layer rule packs: `extract` rules document the call shapes the
//! matchers find, `classify` rules map `(api, captures)` to canonical
//! algorithm-ids with severity hints.
use vstd::prelude::*;
use vstd::string::*;
use crate::extract::int_text;
use crate::tables::strs_view;
use crate::text::{
    contains_seq, is_prefix, str_contains, str_eq, chars_of, string_from_chars, upper_seq,
    chars_upper, chars_contains, chars_starts_with, slice_chars,
};

verus! {

/// Languages there are rule packs for.
#[derive(Debug, Clone, Copy, PartialEq, Eq, Hash, Structural)]
pub enum Language {
    Go,
    Python,
    Java,
    JavaScript,
    TypeScript,
    C,
    Cpp,
    Rust,
    CSharp,
}

/// The language a rule-pack name denotes.
pub open spec fn language_named(s: Seq<char>) -> Option<Language> {
    if s == "go"@ {
        Some(Language::Go)
    } else if s == "python"@ {
        Some(Language::Python)
    } else if s == "java"@ {
        Some(Language::Java)
    } else if s == "javascript"@ {
        Some(Language::JavaScript)
    } else if s == "typescript"@ {
        Some(Language::TypeScript)
    } else if s == "c"@ {
        Some(Language::C)
    } else if s == "cpp"@ || s == "c++"@ {
        Some(Language::Cpp)
    } else if s == "rust"@ {
        Some(Language::Rust)
    } else if s == "csharp"@ || s == "c#"@ {
        Some(Language::CSharp)
    } else {
        None
    }
}

/// The file extensions scanned for a language.
pub open spec fn extensions_of(l: Language) -> Seq<Seq<char>> {
    match l {
        Language::Go => seq!["go"@],
        Language::Python => seq!["py"@],
        Language::Java => seq!["java"@],
        Language::JavaScript => seq!["js"@, "mjs"@, "cjs"@],
        Language::TypeScript => seq!["ts"@, "tsx"@, "mts"@],
        Language::C => seq!["c"@, "h"@],
        Language::Cpp => seq!["cpp"@, "cc"@, "cxx"@, "hpp"@, "hxx"@],
        Language::Rust => seq!["rs"@],
        Language::CSharp => seq!["cs"@],
    }
}

impl Language {
    /// The language a rule-pack name denotes.
    pub fn parse(s: &str) -> (r: Option<Language>)
        ensures
            r == language_named(s@),
    {
        if str_eq(s, "go") {
            Some(Language::Go)
        } else if str_eq(s, "python") {
            Some(Language::Python)
        } else if str_eq(s, "java") {
            Some(Language::Java)
        } else if str_eq(s, "javascript") {
            Some(Language::JavaScript)
        } else if str_eq(s, "typescript") {
            Some(Language::TypeScript)
        } else if str_eq(s, "c") {
            Some(Language::C)
        } else if str_eq(s, "cpp") || str_eq(s, "c++") {
            Some(Language::Cpp)
        } else if str_eq(s, "rust") {
            Some(Language::Rust)
        } else if str_eq(s, "csharp") || str_eq(s, "c#") {
            Some(Language::CSharp)
        } else {
            None
        }
    }

    /// File extensions scanned for this language.
    pub fn extensions(self) -> (r: Vec<&'static str>)
        ensures
            strs_view(r@) == extensions_of(self),
    {
        let r = match self {
            Language::Go => vec!["go"],
            Language::Python => vec!["py"],
            Language::Java => vec!["java"],
            Language::JavaScript => vec!["js", "mjs", "cjs"],
            Language::TypeScript => vec!["ts", "tsx", "mts"],
            Language::C => vec!["c", "h"],
            Language::Cpp => vec!["cpp", "cc", "cxx", "hpp", "hxx"],
            Language::Rust => vec!["rs"],
            Language::CSharp => vec!["cs"],
        };
        assert(strs_view(r@) =~= extensions_of(self));
        r
    }
}

/// Layer 1: extraction. Documents a call-site shape and the captures it
/// yields.
#[derive(Debug, Clone)]
pub struct ExtractRule {
    pub id: String,
    pub language: String,
    pub query: String,
    /// Capture name → expected kind.
    pub captures: Vec<(String, String)>,
    pub api: String,
    pub description: String,
}

/// Predicates the classify layer applies to extracted values.
#[derive(Debug, Clone)]
pub enum ArgMatch {
    /// Exact integer match: `key_size = 2048`.
    ExactInt(i64),
    /// Exact string match: `curve_name = "SECP256R1"`.
    ExactStr(String),
    /// Regex match: `{ regex = "^SECP256R1$" }`.
    Regex(RegexMatch),
    /// Numeric range: `{ lt = 2048 }`, `{ ge = 3072 }`.
    Range(RangeMatch),
}

#[derive(Debug, Clone, Copy)]
pub struct RangeMatch {
    pub lt: Option<i64>,
    pub le: Option<i64>,
    pub gt: Option<i64>,
    pub ge: Option<i64>,
}

#[derive(Debug, Clone)]
pub struct RegexMatch {
    pub regex: String,
}

/// Layer 2: classification.
#[derive(Debug, Clone)]
pub struct ClassifyRule {
    pub id: String,
    pub when: WhenClause,
    pub algorithm_id: String,
    pub severity_hint: String,
    pub message: String,
    pub cwe: Option<String>,
    /// Why this rule may name a parameter that does not appear in its own
    /// match.
    pub parameter_source: Option<String>,
}

#[derive(Debug, Clone)]
pub struct WhenClause {
    /// Regex against the extracted api.
    pub api: String,
    /// Capture name → predicate; every one must hold.
    pub args: Vec<(String, ArgMatch)>,
    /// Allow-list of site contexts the match must be in; `None` accepts any.
    pub site_context: Option<Vec<String>>,
    /// Patterns one of the file's imports must match; `None` requires none.
    pub imports: Option<Vec<String>>,
}

/// One language's rule pack.
#[derive(Debug, Clone)]
pub struct RulePack {
    pub extract: Vec<ExtractRule>,
    pub classify: Vec<ClassifyRule>,
}

/// Why a rule pack could not be loaded.
#[derive(Debug, Clone)]
pub enum LoadError {
    /// The pack text was not a valid pack.
    Toml(String),
    /// A pack invariant does not hold.
    Invariant(String),
}

// ---------------------------------------------------------------------------
// What a classify rule's `when` clause can see.

pub open spec fn opt_int_text(o: Option<i64>) -> Seq<char> {
    match o {
        Some(n) => int_text(n as int),
        None => "-"@,
    }
}

/// The text of one predicate: the literal, the pattern, or the bounds.
pub open spec fn arg_match_text(a: ArgMatch) -> Seq<char> {
    match a {
        ArgMatch::ExactInt(n) => int_text(n as int),
        ArgMatch::ExactStr(s) => s@,
        ArgMatch::Regex(r) => r.regex@,
        ArgMatch::Range(r) => opt_int_text(r.lt) + " "@ + opt_int_text(r.le) + " "@ + opt_int_text(r.gt)
            + " "@ + opt_int_text(r.ge),
    }
}

/// Everything a `when` clause reads, after the api pattern.
pub open spec fn args_evidence(args: Seq<(String, ArgMatch)>) -> Seq<char>
    decreases args.len(),
{
    if args.len() == 0 {
        Seq::empty()
    } else {
        args_evidence(args.drop_last()) + " "@ + args.last().0@ + " "@ + arg_match_text(args.last().1)
    }
}

/// Everything a `when` clause can see: the api pattern, then each capture
/// name with its predicate.
pub open spec fn when_evidence(w: WhenClause) -> Seq<char> {
    w.api@ + args_evidence(w.args@)
}

/// The hash probe: the api pattern and every string a predicate pins, by
/// regex or exactly.
pub open spec fn hash_probe_args(args: Seq<(String, ArgMatch)>) -> Seq<char>
    decreases args.len(),
{
    if args.len() == 0 {
        Seq::empty()
    } else {
        let prev = hash_probe_args(args.drop_last());
        match args.last().1 {
            ArgMatch::Regex(r) => prev + " "@ + r.regex@,
            ArgMatch::ExactStr(s) => prev + " "@ + s@,
            _ => prev,
        }
    }
}

/// The curve probe: the api pattern and every regex predicate.
pub open spec fn curve_probe_args(args: Seq<(String, ArgMatch)>) -> Seq<char>
    decreases args.len(),
{
    if args.len() == 0 {
        Seq::empty()
    } else {
        let prev = curve_probe_args(args.drop_last());
        match args.last().1 {
            ArgMatch::Regex(r) => prev + " "@ + r.regex@,
            _ => prev,
        }
    }
}

pub open spec fn hash_probe(w: WhenClause) -> Seq<char> {
    w.api@ + hash_probe_args(w.args@)
}

pub open spec fn curve_probe(w: WhenClause) -> Seq<char> {
    w.api@ + curve_probe_args(w.args@)
}

fn int_text_string(n: i64) -> (s: String)
    ensures
        s@ == int_text(n as int),
{
    crate::extract::ArgValue::Int(n).as_str()
}

fn opt_int_string(o: Option<i64>) -> (s: String)
    ensures
        s@ == opt_int_text(o),
{
    match o {
        Some(n) => int_text_string(n),
        None => String::from_str("-"),
    }
}

/// The text of one predicate.
pub fn arg_match_string(a: &ArgMatch) -> (s: String)
    ensures
        s@ == arg_match_text(*a),
{
    match a {
        ArgMatch::ExactInt(n) => int_text_string(*n),
        ArgMatch::ExactStr(t) => t.clone(),
        ArgMatch::Regex(r) => r.regex.clone(),
        ArgMatch::Range(r) => {
            let mut s = opt_int_string(r.lt);
            s.append(" ");
            s.append(opt_int_string(r.le).as_str());
            s.append(" ");
            s.append(opt_int_string(r.gt).as_str());
            s.append(" ");
            s.append(opt_int_string(r.ge).as_str());
            s
        },
    }
}

/// Everything a `when` clause can see, as text.
pub fn when_evidence_string(w: &WhenClause) -> (s: String)
    ensures
        s@ == when_evidence(*w),
{
    let mut s = w.api.clone();
    let mut i: usize = 0;
    assert(w.args@.subrange(0, 0) =~= Seq::<(String, ArgMatch)>::empty());
    while i < w.args.len()
        invariant
            i <= w.args@.len(),
            s@ == w.api@ + args_evidence(w.args@.subrange(0, i as int)),
        decreases w.args.len() - i,
    {
        let ghost cur = w.args@.subrange(0, i + 1);
        assert(cur.drop_last() =~= w.args@.subrange(0, i as int));
        s.append(" ");
        s.append(w.args[i].0.as_str());
        s.append(" ");
        s.append(arg_match_string(&w.args[i].1).as_str());
        i = i + 1;
        assert(s@ =~= w.api@ + args_evidence(w.args@.subrange(0, i as int)));
    }
    assert(w.args@.subrange(0, w.args@.len() as int) =~= w.args@);
    s
}

/// The hash probe, as text.
pub fn hash_probe_string(w: &WhenClause) -> (s: String)
    ensures
        s@ == hash_probe(*w),
{
    let mut s = w.api.clone();
    let mut i: usize = 0;
    assert(w.args@.subrange(0, 0) =~= Seq::<(String, ArgMatch)>::empty());
    while i < w.args.len()
        invariant
            i <= w.args@.len(),
            s@ == w.api@ + hash_probe_args(w.args@.subrange(0, i as int)),
        decreases w.args.len() - i,
    {
        let ghost cur = w.args@.subrange(0, i + 1);
        assert(cur.drop_last() =~= w.args@.subrange(0, i as int));
        match &w.args[i].1 {
            ArgMatch::Regex(r) => {
                s.append(" ");
                s.append(r.regex.as_str());
            },
            ArgMatch::ExactStr(t) => {
                s.append(" ");
                s.append(t.as_str());
            },
            _ => {},
        }
        i = i + 1;
        assert(s@ =~= w.api@ + hash_probe_args(w.args@.subrange(0, i as int)));
    }
    assert(w.args@.subrange(0, w.args@.len() as int) =~= w.args@);
    s
}

/// The curve probe, as text.
pub fn curve_probe_string(w: &WhenClause) -> (s: String)
    ensures
        s@ == curve_probe(*w),
{
    let mut s = w.api.clone();
    let mut i: usize = 0;
    assert(w.args@.subrange(0, 0) =~= Seq::<(String, ArgMatch)>::empty());
    while i < w.args.len()
        invariant
            i <= w.args@.len(),
            s@ == w.api@ + curve_probe_args(w.args@.subrange(0, i as int)),
        decreases w.args.len() - i,
    {
        let ghost cur = w.args@.subrange(0, i + 1);
        assert(cur.drop_last() =~= w.args@.subrange(0, i as int));
        match &w.args[i].1 {
            ArgMatch::Regex(r) => {
                s.append(" ");
                s.append(r.regex.as_str());
            },
            _ => {},
        }
        i = i + 1;
        assert(s@ =~= w.api@ + curve_probe_args(w.args@.subrange(0, i as int)));
    }
    assert(w.args@.subrange(0, w.args@.len() as int) =~= w.args@);
    s
}

// ---------------------------------------------------------------------------
// Parameters a rule publishes, and the ones its `when` clause names.

/// The curve a `when` clause pins, if it pins one: `PRIME256V1` names P-256;
/// otherwise the first of 224/256/384/521 spelled `P<n>`, `P-<n>` or
/// `SECP<n>R1`, case-insensitively.
pub open spec fn curve_named_by_spec(evidence: Seq<char>) -> Option<Seq<char>> {
    let u = upper_seq(evidence);
    if contains_seq(u, "PRIME256V1"@) {
        Some("256"@)
    } else if curve_spelled(u, "224"@, "P224"@, "P-224"@, "SECP224R1"@) {
        Some("224"@)
    } else if curve_spelled(u, "256"@, "P256"@, "P-256"@, "SECP256R1"@) {
        Some("256"@)
    } else if curve_spelled(u, "384"@, "P384"@, "P-384"@, "SECP384R1"@) {
        Some("384"@)
    } else if curve_spelled(u, "521"@, "P521"@, "P-521"@, "SECP521R1"@) {
        Some("521"@)
    } else {
        None
    }
}

pub open spec fn curve_spelled(u: Seq<char>, bits: Seq<char>, a: Seq<char>, b: Seq<char>, c: Seq<char>) -> bool {
    contains_seq(u, a) || contains_seq(u, b) || contains_seq(u, c)
}

/// The curve a classify rule's `when` clause pins, if it pins one.
pub fn curve_named_by(evidence: &str) -> (r: Option<&'static str>)
    ensures
        match r {
            Some(b) => curve_named_by_spec(evidence@) == Some(b@),
            None => curve_named_by_spec(evidence@) is None,
        },
{
    let upper = chars_upper(&chars_of(evidence));
    if chars_contains(&upper, &chars_of("PRIME256V1")) {
        return Some("256");
    }
    if chars_contains(&upper, &chars_of("P224")) || chars_contains(&upper, &chars_of("P-224"))
        || chars_contains(&upper, &chars_of("SECP224R1")) {
        return Some("224");
    }
    if chars_contains(&upper, &chars_of("P256")) || chars_contains(&upper, &chars_of("P-256"))
        || chars_contains(&upper, &chars_of("SECP256R1")) {
        return Some("256");
    }
    if chars_contains(&upper, &chars_of("P384")) || chars_contains(&upper, &chars_of("P-384"))
        || chars_contains(&upper, &chars_of("SECP384R1")) {
        return Some("384");
    }
    if chars_contains(&upper, &chars_of("P521")) || chars_contains(&upper, &chars_of("P-521"))
        || chars_contains(&upper, &chars_of("SECP521R1")) {
        return Some("521");
    }
    None
}

/// The AES key width an algorithm-id names: `aes-` followed by 128, 192 or
/// 256.
pub open spec fn aes_width_spec(id: Seq<char>) -> Option<Seq<char>> {
    if is_prefix("aes-"@, id) {
        let rest = id.skip("aes-"@.len() as int);
        if is_prefix("128"@, rest) {
            Some("128"@)
        } else if is_prefix("192"@, rest) {
            Some("192"@)
        } else if is_prefix("256"@, rest) {
            Some("256"@)
        } else {
            None
        }
    } else {
        None
    }
}

/// What follows the `ecdsa-p` / `ecdh-p` prefix of an algorithm-id.
pub open spec fn curve_suffix(id: Seq<char>) -> Option<Seq<char>> {
    if is_prefix("ecdsa-p"@, id) {
        Some(id.skip("ecdsa-p"@.len() as int))
    } else if is_prefix("ecdh-p"@, id) {
        Some(id.skip("ecdh-p"@.len() as int))
    } else {
        None
    }
}

/// The curve an `ecdsa-p<n>` / `ecdh-p<n>` algorithm-id names, digits only.
pub open spec fn published_curve_spec(id: Seq<char>) -> Option<Seq<char>> {
    match curve_suffix(id) {
        Some(r) => if forall|i: int| 0 <= i < r.len() ==> '0' <= #[trigger] r[i] && r[i] <= '9' {
            Some(r)
        } else {
            None
        },
        None => None,
    }
}

fn after_prefix(v: &Vec<char>, p: &str) -> (r: Option<Vec<char>>)
    ensures
        match r {
            Some(rest) => is_prefix(p@, v@) && rest@ == v@.skip(p@.len() as int),
            None => !is_prefix(p@, v@),
        },
{
    let pv = chars_of(p);
    if chars_starts_with(v, &pv) {
        let rest = slice_chars(v, pv.len(), v.len());
        assert(rest@ =~= v@.skip(p@.len() as int));
        Some(rest)
    } else {
        None
    }
}

fn starts_with_lit(v: &Vec<char>, p: &str) -> (r: bool)
    ensures
        r == is_prefix(p@, v@),
{
    chars_starts_with(v, &chars_of(p))
}

/// The AES key width an algorithm-id names, if any.
pub fn aes_width(id: &str) -> (r: Option<&'static str>)
    ensures
        match r {
            Some(w) => aes_width_spec(id@) == Some(w@),
            None => aes_width_spec(id@) is None,
        },
{
    let v = chars_of(id);
    match after_prefix(&v, "aes-") {
        None => None,
        Some(rest) => {
            if starts_with_lit(&rest, "128") {
                Some("128")
            } else if starts_with_lit(&rest, "192") {
                Some("192")
            } else if starts_with_lit(&rest, "256") {
                Some("256")
            } else {
                None
            }
        },
    }
}

/// The curve an `ecdsa-p<n>` / `ecdh-p<n>` algorithm-id names, if any.
pub fn published_curve(id: &str) -> (r: Option<String>)
    ensures
        match r {
            Some(c) => published_curve_spec(id@) == Some(c@),
            None => published_curve_spec(id@) is None,
        },
{
    let v = chars_of(id);
    let rest = match after_prefix(&v, "ecdsa-p") {
        Some(r) => r,
        None => match after_prefix(&v, "ecdh-p") {
            Some(r) => r,
            None => return None,
        },
    };
    let mut i: usize = 0;
    while i < rest.len()
        invariant
            i <= rest@.len(),
            curve_suffix(id@) == Some(rest@),
            forall|j: int| 0 <= j < i ==> '0' <= #[trigger] rest@[j] && rest@[j] <= '9',
        decreases rest.len() - i,
    {
        if !('0' <= rest[i] && rest[i] <= '9') {
            assert(!('0' <= rest@[i as int] && rest@[i as int] <= '9'));
            return None;
        }
        i = i + 1;
    }
    Some(string_from_chars(&rest))
}

/// A rule publishes a parameter its `when` clause cannot observe: an AES
/// width the evidence never mentions, or a curve other than the one the
/// evidence pins.
pub open spec fn publishes_unobserved_parameter(r: ClassifyRule) -> bool {
    let ev = when_evidence(r.when);
    ||| (aes_width_spec(r.algorithm_id@) matches Some(w) && !contains_seq(ev, w))
    ||| (published_curve_spec(r.algorithm_id@) matches Some(p) && curve_named_by_spec(ev) matches Some(
        m,
    ) && m != p)
}

/// Does rule `r` publish a parameter its `when` clause cannot observe?
pub fn rule_publishes_unobserved_parameter(r: &ClassifyRule) -> (b: bool)
    ensures
        b == publishes_unobserved_parameter(*r),
{
    let ev = when_evidence_string(&r.when);
    let width_bad = match aes_width(r.algorithm_id.as_str()) {
        Some(w) => !str_contains(ev.as_str(), w),
        None => false,
    };
    let curve_bad = match published_curve(r.algorithm_id.as_str()) {
        Some(p) => match curve_named_by(ev.as_str()) {
            Some(m) => !str_eq(m, p.as_str()),
            None => false,
        },
        None => false,
    };
    width_bad || curve_bad
}

/// `probe` names exactly one of the three hash widths, `needle`.
pub open spec fn single_variant(probe: Seq<char>, needle: Seq<char>, o1: Seq<char>, o2: Seq<char>) -> bool {
    contains_seq(probe, needle) && !contains_seq(probe, o1) && !contains_seq(probe, o2)
}

/// The algorithm-id names `wrong` but not `needle`.
pub open spec fn names_other_width(id: Seq<char>, needle: Seq<char>, wrong: Seq<char>) -> bool {
    contains_seq(id, wrong) && !contains_seq(id, needle)
}

pub open spec fn hash_width_mismatch_for(probe: Seq<char>, id: Seq<char>, n: Seq<char>, o1: Seq<char>, o2: Seq<char>) -> bool {
    single_variant(probe, n, o1, o2) && (names_other_width(id, n, o1) || names_other_width(id, n, o2))
}

/// A rule whose `when` clause pins one SHA width routes to an algorithm-id
/// naming a different one.
pub open spec fn hash_width_mismatch(r: ClassifyRule) -> bool {
    let p = hash_probe(r.when);
    let id = r.algorithm_id@;
    ||| hash_width_mismatch_for(p, id, "256"@, "384"@, "512"@)
    ||| hash_width_mismatch_for(p, id, "384"@, "256"@, "512"@)
    ||| hash_width_mismatch_for(p, id, "512"@, "256"@, "384"@)
}

fn width_mismatch_for(p: &str, id: &str, n: &str, o1: &str, o2: &str) -> (b: bool)
    ensures
        b == hash_width_mismatch_for(p@, id@, n@, o1@, o2@),
{
    let single = str_contains(p, n) && !str_contains(p, o1) && !str_contains(p, o2);
    single && ((str_contains(id, o1) && !str_contains(id, n)) || (str_contains(id, o2)
        && !str_contains(id, n)))
}

/// Does rule `r` pin one SHA width and publish another?
pub fn rule_hash_width_mismatch(r: &ClassifyRule) -> (b: bool)
    ensures
        b == hash_width_mismatch(*r),
{
    let p = hash_probe_string(&r.when);
    let id = r.algorithm_id.as_str();
    width_mismatch_for(p.as_str(), id, "256", "384", "512") || width_mismatch_for(
        p.as_str(),
        id,
        "384",
        "256",
        "512",
    ) || width_mismatch_for(p.as_str(), id, "512", "256", "384")
}

/// `probe` pins `variant` outside any alternation and the id is `wrong`.
pub open spec fn strict_pin_to(probe: Seq<char>, id: Seq<char>, variant: Seq<char>, wrong: Seq<char>) -> bool {
    contains_seq(probe, variant) && !contains_seq(probe, variant + "|"@) && !contains_seq(
        probe,
        "|"@ + variant,
    ) && id == wrong
}

/// A rule pinning JOSE `ES384`/`ES512` routes to another curve's ECDSA id.
pub open spec fn ecdsa_curve_mismatch(r: ClassifyRule) -> bool {
    let p = curve_probe(r.when);
    let id = r.algorithm_id@;
    ||| strict_pin_to(p, id, "ES384"@, "ecdsa-p256"@)
    ||| strict_pin_to(p, id, "ES384"@, "ecdsa-p521"@)
    ||| strict_pin_to(p, id, "ES512"@, "ecdsa-p256"@)
    ||| strict_pin_to(p, id, "ES512"@, "ecdsa-p384"@)
}

fn strict_pin(p: &str, id: &str, variant: &str, wrong: &str) -> (b: bool)
    ensures
        b == strict_pin_to(p@, id@, variant@, wrong@),
{
    let mut tail_bar = String::from_str(variant);
    tail_bar.append("|");
    let mut head_bar = String::from_str("|");
    head_bar.append(variant);
    str_contains(p, variant) && !str_contains(p, tail_bar.as_str()) && !str_contains(
        p,
        head_bar.as_str(),
    ) && str_eq(id, wrong)
}

/// Does rule `r` pin `ES384`/`ES512` and publish another curve?
pub fn rule_ecdsa_curve_mismatch(r: &ClassifyRule) -> (b: bool)
    ensures
        b == ecdsa_curve_mismatch(*r),
{
    let p = curve_probe_string(&r.when);
    let ps = p.as_str();
    let id = r.algorithm_id.as_str();
    strict_pin(ps, id, "ES384", "ecdsa-p256") || strict_pin(ps, id, "ES384", "ecdsa-p521")
        || strict_pin(ps, id, "ES512", "ecdsa-p256") || strict_pin(ps, id, "ES512", "ecdsa-p384")
}

/// The severity hints the risk engine understands.
pub open spec fn severity_hint_allowed(h: Seq<char>) -> bool {
    h == "critical"@ || h == "high"@ || h == "medium"@ || h == "low"@ || h == "auto"@
}

/// Is `h` one of the severity hints the risk engine understands?
pub fn is_allowed_severity_hint(h: &str) -> (b: bool)
    ensures
        b == severity_hint_allowed(h@),
{
    str_eq(h, "critical") || str_eq(h, "high") || str_eq(h, "medium") || str_eq(h, "low") || str_eq(
        h,
        "auto",
    )
}

/// What every shipped rule pack promises: it has classify rules, their ids
/// are distinct, their severity hints are understood, and none publishes a
/// parameter its `when` clause contradicts or cannot observe.
pub open spec fn pack_wf(p: RulePack) -> bool {
    let c = p.classify@;
    &&& c.len() > 0
    &&& forall|i: int, j: int| 0 <= i < j < c.len() ==> c[i].id@ != c[j].id@
    &&& forall|i: int| 0 <= i < c.len() ==> severity_hint_allowed(#[trigger] c[i].severity_hint@)
    &&& forall|i: int| 0 <= i < c.len() ==> !publishes_unobserved_parameter(#[trigger] c[i])
    &&& forall|i: int| 0 <= i < c.len() ==> !hash_width_mismatch(#[trigger] c[i])
    &&& forall|i: int| 0 <= i < c.len() ==> !ecdsa_curve_mismatch(#[trigger] c[i])
}

/// A predicate as plain values.
pub enum ArgMatchV {
    ExactInt(i64),
    ExactStr(Seq<char>),
    Regex(Seq<char>),
    Range(RangeMatch),
}

pub open spec fn arg_match_view(a: ArgMatch) -> ArgMatchV {
    match a {
        ArgMatch::ExactInt(n) => ArgMatchV::ExactInt(n),
        ArgMatch::ExactStr(s) => ArgMatchV::ExactStr(s@),
        ArgMatch::Regex(r) => ArgMatchV::Regex(r.regex@),
        ArgMatch::Range(r) => ArgMatchV::Range(r),
    }
}

pub open spec fn args_view(args: Seq<(String, ArgMatch)>) -> Seq<(Seq<char>, ArgMatchV)> {
    args.map_values(|e: (String, ArgMatch)| (e.0@, arg_match_view(e.1)))
}

pub open spec fn opt_texts(o: Option<Vec<String>>) -> Option<Seq<Seq<char>>> {
    match o {
        Some(v) => Some(v@.map_values(|s: String| s@)),
        None => None,
    }
}

pub open spec fn opt_text(o: Option<String>) -> Option<Seq<char>> {
    match o {
        Some(s) => Some(s@),
        None => None,
    }
}

/// A classify rule as plain values.
pub struct RuleRow {
    pub id: Seq<char>,
    pub api: Seq<char>,
    pub args: Seq<(Seq<char>, ArgMatchV)>,
    pub site_context: Option<Seq<Seq<char>>>,
    pub imports: Option<Seq<Seq<char>>>,
    pub algorithm_id: Seq<char>,
    pub severity_hint: Seq<char>,
    pub message: Seq<char>,
    pub cwe: Option<Seq<char>>,
    pub parameter_source: Option<Seq<char>>,
}

pub open spec fn rule_row(r: ClassifyRule) -> RuleRow {
    RuleRow {
        id: r.id@,
        api: r.when.api@,
        args: args_view(r.when.args@),
        site_context: opt_texts(r.when.site_context),
        imports: opt_texts(r.when.imports),
        algorithm_id: r.algorithm_id@,
        severity_hint: r.severity_hint@,
        message: r.message@,
        cwe: opt_text(r.cwe),
        parameter_source: opt_text(r.parameter_source),
    }
}

pub open spec fn rule_rows(c: Seq<ClassifyRule>) -> Seq<RuleRow> {
    c.map_values(|r: ClassifyRule| rule_row(r))
}

/// An extract rule as plain values.
pub struct ExtractRow {
    pub id: Seq<char>,
    pub language: Seq<char>,
    pub query: Seq<char>,
    pub captures: Seq<(Seq<char>, Seq<char>)>,
    pub api: Seq<char>,
    pub description: Seq<char>,
}

pub open spec fn extract_row(r: ExtractRule) -> ExtractRow {
    ExtractRow {
        id: r.id@,
        language: r.language@,
        query: r.query@,
        captures: r.captures@.map_values(|c: (String, String)| (c.0@, c.1@)),
        api: r.api@,
        description: r.description@,
    }
}

pub open spec fn extract_rows(e: Seq<ExtractRule>) -> Seq<ExtractRow> {
    e.map_values(|r: ExtractRule| extract_row(r))
}

/// Some well-formed pack has exactly these classify rows.
pub open spec fn rows_loadable(rows: Seq<RuleRow>) -> bool {
    exists|p: RulePack| rule_rows(p.classify@) == rows && #[trigger] pack_wf(p)
}

proof fn lemma_args_by_view(a: Seq<(String, ArgMatch)>, b: Seq<(String, ArgMatch)>)
    requires
        args_view(a) == args_view(b),
    ensures
        args_evidence(a) == args_evidence(b),
        hash_probe_args(a) == hash_probe_args(b),
        curve_probe_args(a) == curve_probe_args(b),
    decreases a.len(),
{
    assert(a.len() == args_view(a).len());
    assert(b.len() == args_view(b).len());
    if a.len() > 0 {
        assert(args_view(a.drop_last()) =~= args_view(a).drop_last());
        assert(args_view(b.drop_last()) =~= args_view(b).drop_last());
        lemma_args_by_view(a.drop_last(), b.drop_last());
        let x = a.last();
        let y = b.last();
        assert(args_view(a)[a.len() - 1] == (x.0@, arg_match_view(x.1)));
        assert(args_view(b)[b.len() - 1] == (y.0@, arg_match_view(y.1)));
        assert(arg_match_text(x.1) == arg_match_text(y.1));
    }
}

proof fn lemma_pack_wf_transfers(p: RulePack, q: RulePack)
    requires
        rule_rows(p.classify@) == rule_rows(q.classify@),
        pack_wf(p),
    ensures
        pack_wf(q),
{
    let c = p.classify@;
    let d = q.classify@;
    assert(c.len() == rule_rows(c).len());
    assert(d.len() == rule_rows(d).len());
    assert(c.len() == d.len());
    assert forall|i: int| 0 <= i < d.len() implies {
        &&& (#[trigger] d[i]).id@ == c[i].id@
        &&& d[i].severity_hint@ == c[i].severity_hint@
        &&& publishes_unobserved_parameter(d[i]) == publishes_unobserved_parameter(c[i])
        &&& hash_width_mismatch(d[i]) == hash_width_mismatch(c[i])
        &&& ecdsa_curve_mismatch(d[i]) == ecdsa_curve_mismatch(c[i])
    } by {
        assert(rule_rows(c)[i] == rule_row(c[i]));
        assert(rule_rows(d)[i] == rule_row(d[i]));
        lemma_args_by_view(c[i].when.args@, d[i].when.args@);
    }
    assert(d.len() > 0);
    assert forall|i: int, j: int| 0 <= i < j < d.len() implies d[i].id@ != d[j].id@ by {
        assert(c[i].id@ != c[j].id@);
    }
    assert forall|i: int| 0 <= i < d.len() implies severity_hint_allowed(#[trigger] d[i].severity_hint@) by {
        assert(severity_hint_allowed(c[i].severity_hint@));
    }
    assert forall|i: int| 0 <= i < d.len() implies !publishes_unobserved_parameter(#[trigger] d[i]) by {
        assert(!publishes_unobserved_parameter(c[i]));
    }
    assert forall|i: int| 0 <= i < d.len() implies !hash_width_mismatch(#[trigger] d[i]) by {
        assert(!hash_width_mismatch(c[i]));
    }
    assert forall|i: int| 0 <= i < d.len() implies !ecdsa_curve_mismatch(#[trigger] d[i]) by {
        assert(!ecdsa_curve_mismatch(c[i]));
    }
}

/// Whether a pack is well formed depends on its classify rows alone.
pub proof fn lemma_pack_wf_by_rows(p: RulePack, q: RulePack)
    requires
        rule_rows(p.classify@) == rule_rows(q.classify@),
    ensures
        pack_wf(p) == pack_wf(q),
{
    if pack_wf(p) {
        lemma_pack_wf_transfers(p, q);
    }
    if pack_wf(q) {
        lemma_pack_wf_transfers(q, p);
    }
}

impl RulePack {
    /// Does this pack keep the rule-pack invariants?
    pub fn audit(&self) -> (ok: bool)
        ensures
            ok == pack_wf(*self),
    {
        let c = &self.classify;
        if c.len() == 0 {
            return false;
        }
        let mut i: usize = 0;
        while i < c.len()
            invariant
                i <= c@.len(),
                c@ == self.classify@,
                forall|a: int, b: int| 0 <= a < b < i ==> c@[a].id@ != c@[b].id@,
                forall|a: int| 0 <= a < i ==> severity_hint_allowed(#[trigger] c@[a].severity_hint@),
                forall|a: int| 0 <= a < i ==> !publishes_unobserved_parameter(#[trigger] c@[a]),
                forall|a: int| 0 <= a < i ==> !hash_width_mismatch(#[trigger] c@[a]),
                forall|a: int| 0 <= a < i ==> !ecdsa_curve_mismatch(#[trigger] c@[a]),
            decreases c.len() - i,
        {
            let r = &c[i];
            if !is_allowed_severity_hint(r.severity_hint.as_str()) || rule_publishes_unobserved_parameter(r)
                || rule_hash_width_mismatch(r) || rule_ecdsa_curve_mismatch(r) {
                assert(!(severity_hint_allowed(c@[i as int].severity_hint@)
                    && !publishes_unobserved_parameter(c@[i as int])
                    && !hash_width_mismatch(c@[i as int]) && !ecdsa_curve_mismatch(c@[i as int])));
                return false;
            }
            let mut j: usize = 0;
            while j < i
                invariant
                    j <= i < c@.len(),
                    c@ == self.classify@,
                    forall|a: int| 0 <= a < j ==> c@[a].id@ != c@[i as int].id@,
                decreases i - j,
            {
                if c[j].id == c[i].id {
                    assert(c@[j as int].id@ == c@[i as int].id@);
                    return false;
                }
                j = j + 1;
            }
            i = i + 1;
        }
        true
    }
}

} // verus!
