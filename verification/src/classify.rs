//! The classify layer: a rule's `when` clause tested against a raw match,
//! and the finding a rule that fires produces.
use vstd::prelude::*;
use vstd::string::*;
use crate::algorithms::AlgorithmTable;
use crate::extract::{ArgMap, ArgVal, ArgValue, RawMatch, entries_lookup, arg_text};
use crate::findings::{Confidence, Exposure, Finding, Location, SiteContext, UsageContext};
use crate::pattern::{replace_all, replace_all_chars};
use crate::rules::{ArgMatch, ClassifyRule, Language, RangeMatch, RulePack};
use crate::split::{first_segment, first_segment_of};
use crate::tables::strs_view;
use crate::text::{chars_of, owned, one_char, str_eq, string_from_chars, slice_chars};

verus! {

#[verifier::external_type_specification]
#[verifier::external_body]
pub struct ExRegex(regex::Regex);

/// Whether `regex::Regex::new` accepts a pattern.
pub uninterp spec fn regex_compiles(pattern: Seq<char>) -> bool;

/// Whether the regex compiled from `pattern` matches somewhere in `text`.
pub uninterp spec fn regex_finds(pattern: Seq<char>, text: Seq<char>) -> bool;

/// `regex::Regex::new`: compiles a pattern; whether it succeeds is a
/// function of the pattern alone. The compiled value is opaque here; a
/// refusal comes back as the error's display text, which this contract
/// does not describe.
#[verifier::external_body]
fn regex_new(pattern: &str) -> (r: Result<regex::Regex, String>)
    ensures
        r is Ok <==> regex_compiles(pattern@),
{
    regex::Regex::new(pattern).map_err(|e| e.to_string())
}

/// Why a scan of one file stopped.
#[derive(Debug, Clone)]
pub enum ScanError {
    /// The file could not be read.
    Io(String),
    /// The grammar for a language could not be loaded.
    GrammarLoad(Language),
    /// A rule names an algorithm-id the algorithm table does not have.
    UnknownAlgorithm(String),
    /// A rule's pattern does not compile.
    RegexCompile(String),
    /// The directory walk failed.
    Walk(String),
    /// The file is over the size cap.
    FileTooLarge { path: String, size: u64 },
    /// A built-in rule pack failed to load.
    RuleLoad(Language),
}

/// A compiled pattern, kept with the text it was compiled from.
pub struct Pattern {
    source: String,
    re: regex::Regex,
}

/// `regex::Regex::is_match` on a pattern's compiled form: is there a match
/// anywhere in `text`? `Pattern` values are only built by
/// [`Pattern::compile`], so `re` is always `source` compiled.
#[verifier::external_body]
fn pattern_is_match(p: &Pattern, text: &str) -> (b: bool)
    ensures
        b == regex_finds(p.source@, text@),
{
    p.re.is_match(text)
}

impl Pattern {
    /// The pattern text.
    pub closed spec fn source_view(&self) -> Seq<char> {
        self.source@
    }

    /// Compile `pattern`; a pattern the regex engine refuses is a
    /// `RegexCompile` error.
    pub fn compile(pattern: &str) -> (r: Result<Pattern, ScanError>)
        ensures
            r is Ok <==> regex_compiles(pattern@),
            r matches Ok(p) ==> p.source_view() == pattern@,
            r matches Err(e) ==> e is RegexCompile,
    {
        match regex_new(pattern) {
            Ok(re) => Ok(Pattern { source: owned(pattern), re }),
            Err(e) => Err(ScanError::RegexCompile(e)),
        }
    }

    /// Does the pattern match somewhere in `text`?
    pub fn is_match(&self, text: &str) -> (b: bool)
        ensures
            b == regex_finds(self.source_view(), text@),
    {
        pattern_is_match(self, text)
    }
}

// ---------------------------------------------------------------------------
// Argument predicates.

/// An integer inside every bound a range sets.
pub open spec fn in_range(n: int, r: RangeMatch) -> bool {
    &&& (r.lt matches Some(x) ==> n < x)
    &&& (r.le matches Some(x) ==> n <= x)
    &&& (r.gt matches Some(x) ==> n > x)
    &&& (r.ge matches Some(x) ==> n >= x)
}

/// What testing a captured value against a predicate gives: a verdict, or
/// the pattern that failed to compile. A predicate of the other type than
/// the value does not hold.
pub open spec fn arg_outcome(v: ArgVal, p: ArgMatch) -> Result<bool, Seq<char>> {
    match (v, p) {
        (ArgVal::Int(n), ArgMatch::ExactInt(m)) => Ok(n == m as int),
        (ArgVal::Str(s), ArgMatch::ExactStr(t)) => Ok(s == t@),
        (ArgVal::Int(n), ArgMatch::Range(r)) => Ok(in_range(n, r)),
        (ArgVal::Str(s), ArgMatch::Regex(r)) => if regex_compiles(r.regex@) {
            Ok(regex_finds(r.regex@, s))
        } else {
            Err(r.regex@)
        },
        _ => Ok(false),
    }
}

/// Does the captured `value` satisfy `predicate`?
pub fn arg_matches(value: &ArgValue, predicate: &ArgMatch) -> (r: Result<bool, ScanError>)
    ensures
        match r {
            Ok(b) => arg_outcome(value@, *predicate) == Ok::<bool, Seq<char>>(b),
            Err(e) => arg_outcome(value@, *predicate) is Err && e is RegexCompile,
        },
{
    match (value, predicate) {
        (ArgValue::Int(n), ArgMatch::ExactInt(m)) => Ok(*n == *m),
        (ArgValue::Str(s), ArgMatch::ExactStr(t)) => Ok(str_eq(s.as_str(), t.as_str())),
        (ArgValue::Int(n), ArgMatch::Range(r)) => {
            let lt_ok = match r.lt {
                Some(x) => *n < x,
                None => true,
            };
            let le_ok = match r.le {
                Some(x) => *n <= x,
                None => true,
            };
            let gt_ok = match r.gt {
                Some(x) => *n > x,
                None => true,
            };
            let ge_ok = match r.ge {
                Some(x) => *n >= x,
                None => true,
            };
            Ok(lt_ok && le_ok && gt_ok && ge_ok)
        },
        (ArgValue::Str(s), ArgMatch::Regex(r)) => {
            match Pattern::compile(r.regex.as_str()) {
                Ok(p) => Ok(p.is_match(s.as_str())),
                Err(e) => Err(e),
            }
        },
        _ => Ok(false),
    }
}

// ---------------------------------------------------------------------------
// The gates of a `when` clause, in the order they are tested.

/// The name a site context goes by in a rule's allow-list.
pub open spec fn site_context_name(c: SiteContext) -> Seq<char> {
    match c {
        SiteContext::Call => "Call"@,
        SiteContext::StringConstant => "StringConstant"@,
        SiteContext::StructLiteral => "StructLiteral"@,
        SiteContext::MapEntry => "MapEntry"@,
        SiteContext::TestAssertion => "TestAssertion"@,
        SiteContext::RegistryLookup => "RegistryLookup"@,
        SiteContext::Comparison => "Comparison"@,
        SiteContext::CollectionElement => "CollectionElement"@,
        SiteContext::Default => "Default"@,
    }
}

/// The name a site context goes by in a rule's allow-list.
pub fn site_context_label(c: SiteContext) -> (r: &'static str)
    ensures
        r@ == site_context_name(c),
{
    match c {
        SiteContext::Call => "Call",
        SiteContext::StringConstant => "StringConstant",
        SiteContext::StructLiteral => "StructLiteral",
        SiteContext::MapEntry => "MapEntry",
        SiteContext::TestAssertion => "TestAssertion",
        SiteContext::RegistryLookup => "RegistryLookup",
        SiteContext::Comparison => "Comparison",
        SiteContext::CollectionElement => "CollectionElement",
        SiteContext::Default => "Default",
    }
}

/// The site context an allow-list entry names, if any: each context is
/// named by its own variant name, case and all.
pub open spec fn context_named(n: Seq<char>) -> Option<SiteContext> {
    if n == "Call"@ {
        Some(SiteContext::Call)
    } else if n == "StringConstant"@ {
        Some(SiteContext::StringConstant)
    } else if n == "StructLiteral"@ {
        Some(SiteContext::StructLiteral)
    } else if n == "MapEntry"@ {
        Some(SiteContext::MapEntry)
    } else if n == "TestAssertion"@ {
        Some(SiteContext::TestAssertion)
    } else if n == "RegistryLookup"@ {
        Some(SiteContext::RegistryLookup)
    } else if n == "Comparison"@ {
        Some(SiteContext::Comparison)
    } else if n == "CollectionElement"@ {
        Some(SiteContext::CollectionElement)
    } else if n == "Default"@ {
        Some(SiteContext::Default)
    } else {
        None
    }
}

/// Each site context goes by its own variant name in an allow-list, and
/// two contexts never share a name: reading a context's name back gives
/// the context itself.
pub proof fn lemma_site_context_names_read_back(c: SiteContext, d: SiteContext)
    ensures
        context_named(site_context_name(c)) == Some(c),
        site_context_name(c) == site_context_name(d) ==> c == d,
{
    reveal_strlit("Call");
    assert("Call"@.len() == 4);
    assert("Call"@[0] == 'C');
    assert("Call"@[1] == 'a');
    assert("Call"@[2] == 'l');
    assert("Call"@[3] == 'l');
    reveal_strlit("StringConstant");
    assert("StringConstant"@.len() == 14);
    assert("StringConstant"@[0] == 'S');
    assert("StringConstant"@[1] == 't');
    assert("StringConstant"@[2] == 'r');
    assert("StringConstant"@[3] == 'i');
    assert("StringConstant"@[4] == 'n');
    assert("StringConstant"@[5] == 'g');
    assert("StringConstant"@[6] == 'C');
    assert("StringConstant"@[7] == 'o');
    assert("StringConstant"@[8] == 'n');
    assert("StringConstant"@[9] == 's');
    assert("StringConstant"@[10] == 't');
    assert("StringConstant"@[11] == 'a');
    assert("StringConstant"@[12] == 'n');
    assert("StringConstant"@[13] == 't');
    reveal_strlit("StructLiteral");
    assert("StructLiteral"@.len() == 13);
    assert("StructLiteral"@[0] == 'S');
    assert("StructLiteral"@[1] == 't');
    assert("StructLiteral"@[2] == 'r');
    assert("StructLiteral"@[3] == 'u');
    assert("StructLiteral"@[4] == 'c');
    assert("StructLiteral"@[5] == 't');
    assert("StructLiteral"@[6] == 'L');
    assert("StructLiteral"@[7] == 'i');
    assert("StructLiteral"@[8] == 't');
    assert("StructLiteral"@[9] == 'e');
    assert("StructLiteral"@[10] == 'r');
    assert("StructLiteral"@[11] == 'a');
    assert("StructLiteral"@[12] == 'l');
    reveal_strlit("MapEntry");
    assert("MapEntry"@.len() == 8);
    assert("MapEntry"@[0] == 'M');
    assert("MapEntry"@[1] == 'a');
    assert("MapEntry"@[2] == 'p');
    assert("MapEntry"@[3] == 'E');
    assert("MapEntry"@[4] == 'n');
    assert("MapEntry"@[5] == 't');
    assert("MapEntry"@[6] == 'r');
    assert("MapEntry"@[7] == 'y');
    reveal_strlit("TestAssertion");
    assert("TestAssertion"@.len() == 13);
    assert("TestAssertion"@[0] == 'T');
    assert("TestAssertion"@[1] == 'e');
    assert("TestAssertion"@[2] == 's');
    assert("TestAssertion"@[3] == 't');
    assert("TestAssertion"@[4] == 'A');
    assert("TestAssertion"@[5] == 's');
    assert("TestAssertion"@[6] == 's');
    assert("TestAssertion"@[7] == 'e');
    assert("TestAssertion"@[8] == 'r');
    assert("TestAssertion"@[9] == 't');
    assert("TestAssertion"@[10] == 'i');
    assert("TestAssertion"@[11] == 'o');
    assert("TestAssertion"@[12] == 'n');
    reveal_strlit("RegistryLookup");
    assert("RegistryLookup"@.len() == 14);
    assert("RegistryLookup"@[0] == 'R');
    assert("RegistryLookup"@[1] == 'e');
    assert("RegistryLookup"@[2] == 'g');
    assert("RegistryLookup"@[3] == 'i');
    assert("RegistryLookup"@[4] == 's');
    assert("RegistryLookup"@[5] == 't');
    assert("RegistryLookup"@[6] == 'r');
    assert("RegistryLookup"@[7] == 'y');
    assert("RegistryLookup"@[8] == 'L');
    assert("RegistryLookup"@[9] == 'o');
    assert("RegistryLookup"@[10] == 'o');
    assert("RegistryLookup"@[11] == 'k');
    assert("RegistryLookup"@[12] == 'u');
    assert("RegistryLookup"@[13] == 'p');
    reveal_strlit("Comparison");
    assert("Comparison"@.len() == 10);
    assert("Comparison"@[0] == 'C');
    assert("Comparison"@[1] == 'o');
    assert("Comparison"@[2] == 'm');
    assert("Comparison"@[3] == 'p');
    assert("Comparison"@[4] == 'a');
    assert("Comparison"@[5] == 'r');
    assert("Comparison"@[6] == 'i');
    assert("Comparison"@[7] == 's');
    assert("Comparison"@[8] == 'o');
    assert("Comparison"@[9] == 'n');
    reveal_strlit("CollectionElement");
    assert("CollectionElement"@.len() == 17);
    assert("CollectionElement"@[0] == 'C');
    assert("CollectionElement"@[1] == 'o');
    assert("CollectionElement"@[2] == 'l');
    assert("CollectionElement"@[3] == 'l');
    assert("CollectionElement"@[4] == 'e');
    assert("CollectionElement"@[5] == 'c');
    assert("CollectionElement"@[6] == 't');
    assert("CollectionElement"@[7] == 'i');
    assert("CollectionElement"@[8] == 'o');
    assert("CollectionElement"@[9] == 'n');
    assert("CollectionElement"@[10] == 'E');
    assert("CollectionElement"@[11] == 'l');
    assert("CollectionElement"@[12] == 'e');
    assert("CollectionElement"@[13] == 'm');
    assert("CollectionElement"@[14] == 'e');
    assert("CollectionElement"@[15] == 'n');
    assert("CollectionElement"@[16] == 't');
    reveal_strlit("Default");
    assert("Default"@.len() == 7);
    assert("Default"@[0] == 'D');
    assert("Default"@[1] == 'e');
    assert("Default"@[2] == 'f');
    assert("Default"@[3] == 'a');
    assert("Default"@[4] == 'u');
    assert("Default"@[5] == 'l');
    assert("Default"@[6] == 't');
}

/// A rule whose allow-list does not name a match's site context never fires
/// on it.
pub proof fn lemma_allow_list_gates_firing(raw: RawMatch, rule: ClassifyRule, known: Seq<Seq<char>>, imports: Seq<Seq<char>>)
    requires
        rule.when.site_context matches Some(list) && !string_views(list@).contains(site_context_name(raw.site_context)),
    ensures
        classify_verdict(raw, rule, known, imports) != Verdict::Fires,
{
}

/// A match that is only an equality test fires no rule whose allow-list
/// leaves out `Comparison`: a rule listing only `Call` stays silent on it.
pub proof fn lemma_comparison_needs_listing(raw: RawMatch, rule: ClassifyRule, known: Seq<Seq<char>>, imports: Seq<Seq<char>>)
    requires
        raw.site_context == SiteContext::Comparison,
        rule.when.site_context matches Some(list) && !string_views(list@).contains("Comparison"@),
    ensures
        classify_verdict(raw, rule, known, imports) != Verdict::Fires,
{
    lemma_site_context_names_read_back(raw.site_context, raw.site_context);
}

/// The views of a list of strings.
pub open spec fn string_views(v: Seq<String>) -> Seq<Seq<char>> {
    v.map_values(|s: String| s@)
}

/// A match in context `c` passes the allow-list (no list accepts all).
pub open spec fn site_allowed(allow: Option<Vec<String>>, c: SiteContext) -> bool {
    match allow {
        None => true,
        Some(list) => string_views(list@).contains(site_context_name(c)),
    }
}

/// The import gate from pattern `i` on: the first pattern that compiles and
/// matches one of the file's imports qualifies the match; a pattern that
/// does not compile, reached before that, is an error.
pub open spec fn imports_gate(pats: Seq<Seq<char>>, imports: Seq<Seq<char>>, i: int) -> Result<bool, ()>
    decreases pats.len() - i,
{
    if i < 0 || i >= pats.len() {
        Ok(false)
    } else if !regex_compiles(pats[i]) {
        Err(())
    } else if exists|k: int| 0 <= k < imports.len() && regex_finds(pats[i], #[trigger] imports[k]) {
        Ok(true)
    } else {
        imports_gate(pats, imports, i + 1)
    }
}

/// The import gate of a `when` clause: no header set passes every match.
pub open spec fn imports_verdict(required: Option<Vec<String>>, imports: Seq<Seq<char>>) -> Result<bool, ()> {
    match required {
        None => Ok(true),
        Some(pats) => imports_gate(string_views(pats@), imports, 0),
    }
}

/// The argument gate from predicate `i` on: each named capture must be
/// present and satisfy its predicate.
pub open spec fn args_gate(preds: Seq<(String, ArgMatch)>, args: Seq<(Seq<char>, ArgVal)>, i: int) -> Result<bool, ()>
    decreases preds.len() - i,
{
    if i < 0 || i >= preds.len() {
        Ok(true)
    } else {
        match entries_lookup(args, preds[i].0@) {
            None => Ok(false),
            Some(v) => match arg_outcome(v, preds[i].1) {
                Err(_) => Err(()),
                Ok(false) => Ok(false),
                Ok(true) => args_gate(preds, args, i + 1),
            },
        }
    }
}

/// What a classify rule does with a raw match.
pub enum Verdict {
    /// A pattern the rule tests did not compile.
    BadPattern,
    /// The rule fires but names an algorithm the table lacks.
    UnknownAlgorithm,
    /// The rule does not apply.
    NoMatch,
    /// The rule fires.
    Fires,
}

/// The verdict of `rule` on `raw`, given the known algorithm-ids and the
/// imports of the file holding the match.
pub open spec fn classify_verdict(raw: RawMatch, rule: ClassifyRule, known: Seq<Seq<char>>, imports: Seq<Seq<char>>) -> Verdict {
    if !regex_compiles(rule.when.api@) {
        Verdict::BadPattern
    } else if !regex_finds(rule.when.api@, raw.api@) {
        Verdict::NoMatch
    } else if !site_allowed(rule.when.site_context, raw.site_context) {
        Verdict::NoMatch
    } else {
        match imports_verdict(rule.when.imports, imports) {
            Err(_) => Verdict::BadPattern,
            Ok(false) => Verdict::NoMatch,
            Ok(true) => match args_gate(rule.when.args@, raw.args@, 0) {
                Err(_) => Verdict::BadPattern,
                Ok(false) => Verdict::NoMatch,
                Ok(true) => if known.contains(rule.algorithm_id@) {
                    Verdict::Fires
                } else {
                    Verdict::UnknownAlgorithm
                },
            },
        }
    }
}

/// A rule's message with each `{name}` replaced by the text of the capture
/// `name`, captures taken in order from `i`.
pub open spec fn fill_message(msg: Seq<char>, args: Seq<(Seq<char>, ArgVal)>, i: int) -> Seq<char>
    decreases args.len() - i,
{
    if i < 0 || i >= args.len() {
        msg
    } else {
        fill_message(replace_all(msg, seq!['{'] + args[i].0 + seq!['}'], arg_text(args[i].1)), args, i + 1)
    }
}

/// The first line of a snippet, as `str::lines` yields it: up to the first
/// `\n`, less a `\r` just before it; empty text has no line.
pub open spec fn first_line(s: Seq<char>) -> Seq<char> {
    let head = first_segment(s, seq!['\n']);
    if head.len() < s.len() && head.len() > 0 && head.last() == '\r' {
        head.drop_last()
    } else {
        head
    }
}

/// The finding a firing rule produces for a match in file `path`.
pub open spec fn finding_spec(f: Finding, raw: RawMatch, rule: ClassifyRule, path: Seq<char>) -> bool {
    &&& f.rule_id@ == rule.id@
    &&& f.algorithm_id@ == rule.algorithm_id@
    &&& f.location.location@ == path
    &&& f.location.line == Some(raw.line)
    &&& f.location.offset == Some(raw.offset)
    &&& (f.location.symbol matches Some(s) && s@ == raw.symbol@)
    &&& (f.location.snippet matches Some(s) && s@ == first_line(raw.snippet@))
    &&& f.message@ == fill_message(rule.message@, raw.args@, 0)
    &&& f.confidence == Confidence::LiteralArg
    &&& f.usage_context == UsageContext::Unknown
    &&& f.exposure == Exposure::InternalService
    &&& f.shelf_life_bucket@ == "short"@
    &&& !f.hndl_critical
}

/// What applying a rule returns, given its verdict.
pub open spec fn classify_result(r: Result<Option<Finding>, ScanError>, v: Verdict, raw: RawMatch, rule: ClassifyRule, path: Seq<char>) -> bool {
    match r {
        Err(e) => ((v is BadPattern) && (e is RegexCompile)) || ((v is UnknownAlgorithm) && (
        e matches ScanError::UnknownAlgorithm(id) && id@ == rule.algorithm_id@)),
        Ok(None) => v is NoMatch,
        Ok(Some(f)) => (v is Fires) && finding_spec(f, raw, rule, path),
    }
}

/// Is `s` one of the strings of `list`?
fn in_strings(s: &str, list: &Vec<String>) -> (r: bool)
    ensures
        r == string_views(list@).contains(s@),
{
    let mut i: usize = 0;
    while i < list.len()
        invariant
            i <= list@.len(),
            forall|j: int| 0 <= j < i ==> #[trigger] string_views(list@)[j] != s@,
        decreases list.len() - i,
    {
        if str_eq(list[i].as_str(), s) {
            assert(string_views(list@)[i as int] == s@);
            return true;
        }
        i = i + 1;
    }
    proof {
        if string_views(list@).contains(s@) {
            let k = choose|k: int| 0 <= k < string_views(list@).len() && string_views(list@)[k] == s@;
            assert(string_views(list@)[k] != s@);
        }
    }
    false
}

/// Does some import match the compiled pattern?
fn any_import_matches(p: &Pattern, imports: &Vec<String>) -> (r: bool)
    ensures
        r == exists|k: int| 0 <= k < imports@.len() && regex_finds(p.source_view(), #[trigger] string_views(imports@)[k]),
{
    let mut k: usize = 0;
    while k < imports.len()
        invariant
            k <= imports@.len(),
            forall|j: int| 0 <= j < k ==> !regex_finds(p.source_view(), #[trigger] string_views(imports@)[j]),
        decreases imports.len() - k,
    {
        if p.is_match(imports[k].as_str()) {
            assert(regex_finds(p.source_view(), string_views(imports@)[k as int]));
            return true;
        }
        k = k + 1;
    }
    false
}

/// The import gate of a `when` clause, tested.
fn imports_pass(required: &Option<Vec<String>>, imports: &Vec<String>) -> (r: Result<bool, ScanError>)
    ensures
        match r {
            Ok(b) => imports_verdict(*required, string_views(imports@)) == Ok::<bool, ()>(b),
            Err(e) => imports_verdict(*required, string_views(imports@)) is Err && e is RegexCompile,
        },
{
    match required {
        None => Ok(true),
        Some(pats) => {
            let ghost pv = string_views(pats@);
            let ghost iv = string_views(imports@);
            let mut i: usize = 0;
            while i < pats.len()
                invariant
                    i <= pats@.len(),
                    pv == string_views(pats@),
                    iv == string_views(imports@),
                    imports_verdict(*required, iv) == imports_gate(pv, iv, 0),
                    imports_gate(pv, iv, 0) == imports_gate(pv, iv, i as int),
                decreases pats.len() - i,
            {
                let p = match Pattern::compile(pats[i].as_str()) {
                    Ok(p) => p,
                    Err(e) => {
                        return Err(e);
                    },
                };
                assert(pv[i as int] == p.source_view());
                if any_import_matches(&p, imports) {
                    return Ok(true);
                }
                i = i + 1;
            }
            Ok(false)
        },
    }
}

/// The argument gate of a `when` clause, tested.
fn args_pass(preds: &Vec<(String, ArgMatch)>, args: &ArgMap) -> (r: Result<bool, ScanError>)
    ensures
        match r {
            Ok(b) => args_gate(preds@, args@, 0) == Ok::<bool, ()>(b),
            Err(e) => args_gate(preds@, args@, 0) is Err && e is RegexCompile,
        },
{
    let mut i: usize = 0;
    while i < preds.len()
        invariant
            i <= preds@.len(),
            args_gate(preds@, args@, 0) == args_gate(preds@, args@, i as int),
        decreases preds.len() - i,
    {
        match args.get(preds[i].0.as_str()) {
            None => {
                return Ok(false);
            },
            Some(v) => {
                match arg_matches(v, &preds[i].1) {
                    Ok(true) => {},
                    Ok(false) => {
                        return Ok(false);
                    },
                    Err(e) => {
                        return Err(e);
                    },
                }
            },
        }
        i = i + 1;
    }
    Ok(true)
}

/// `msg` with every `{name}` of the captures filled in.
fn fill_message_string(msg: &String, args: &ArgMap) -> (r: String)
    ensures
        r@ == fill_message(msg@, args@, 0),
{
    let mut cur = chars_of(msg.as_str());
    let mut i: usize = 0;
    while i < args.entries.len()
        invariant
            i <= args@.len(),
            fill_message(msg@, args@, 0) == fill_message(cur@, args@, i as int),
        decreases args.entries.len() - i,
    {
        let mut pat: Vec<char> = Vec::new();
        pat.push('{');
        let key = chars_of(args.entries[i].0.as_str());
        let mut j: usize = 0;
        while j < key.len()
            invariant
                j <= key@.len(),
                pat@ == seq!['{'] + key@.subrange(0, j as int),
            decreases key.len() - j,
        {
            pat.push(key[j]);
            j = j + 1;
            assert(pat@ =~= seq!['{'] + key@.subrange(0, j as int));
        }
        pat.push('}');
        assert(key@.subrange(0, key@.len() as int) =~= key@);
        assert(pat@ =~= seq!['{'] + args@[i as int].0 + seq!['}']);
        let rep = chars_of(args.entries[i].1.as_str().as_str());
        cur = replace_all_chars(&cur, &pat, &rep);
        i = i + 1;
    }
    string_from_chars(&cur)
}

/// The first line of a snippet.
pub fn first_line_of(s: &str) -> (r: String)
    ensures
        r@ == first_line(s@),
{
    let v = chars_of(s);
    let head = first_segment_of(&v, &one_char('\n'));
    if head.len() < v.len() && head.len() > 0 && head[head.len() - 1] == '\r' {
        let cut = slice_chars(&head, 0, head.len() - 1);
        assert(cut@ =~= head@.drop_last());
        string_from_chars(&cut)
    } else {
        string_from_chars(&head)
    }
}

/// Test one classify rule's `when` clause against a raw match: the api
/// pattern, the site-context allow-list, the import gate, then each
/// argument predicate. When all pass and the algorithm-id is known, build
/// the finding.
pub fn apply_classify(
    raw: &RawMatch,
    rule: &ClassifyRule,
    algorithms: &AlgorithmTable,
    path: &str,
    imports: &Vec<String>,
) -> (r: Result<Option<Finding>, ScanError>)
    ensures
        classify_result(
            r,
            classify_verdict(*raw, *rule, algorithms.ids(), string_views(imports@)),
            *raw,
            *rule,
            path@,
        ),
{
    let api_re = match Pattern::compile(rule.when.api.as_str()) {
        Ok(p) => p,
        Err(e) => {
            return Err(e);
        },
    };
    if !api_re.is_match(raw.api.as_str()) {
        return Ok(None);
    }
    match &rule.when.site_context {
        Some(allow) => {
            if !in_strings(site_context_label(raw.site_context), allow) {
                return Ok(None);
            }
        },
        None => {},
    }
    match imports_pass(&rule.when.imports, imports) {
        Ok(true) => {},
        Ok(false) => {
            return Ok(None);
        },
        Err(e) => {
            return Err(e);
        },
    }
    match args_pass(&rule.when.args, &raw.args) {
        Ok(true) => {},
        Ok(false) => {
            return Ok(None);
        },
        Err(e) => {
            return Err(e);
        },
    }
    if !algorithms.contains(rule.algorithm_id.as_str()) {
        return Err(ScanError::UnknownAlgorithm(rule.algorithm_id.clone()));
    }
    let message = fill_message_string(&rule.message, &raw.args);
    Ok(
        Some(
            Finding {
                rule_id: rule.id.clone(),
                algorithm_id: rule.algorithm_id.clone(),
                location: Location {
                    location: owned(path),
                    line: Some(raw.line),
                    offset: Some(raw.offset),
                    symbol: Some(raw.symbol.clone()),
                    snippet: Some(first_line_of(raw.snippet.as_str())),
                },
                message,
                confidence: Confidence::LiteralArg,
                usage_context: UsageContext::Unknown,
                exposure: Exposure::InternalService,
                shelf_life_bucket: owned("short"),
                hndl_critical: false,
            },
        ),
    )
}

/// The finding the first rule of `pack` that fires produces for `raw`.
pub open spec fn first_firing(raw: RawMatch, rules: Seq<ClassifyRule>, known: Seq<Seq<char>>, imports: Seq<Seq<char>>, i: int) -> Option<int>
    decreases rules.len() - i,
{
    if i < 0 || i >= rules.len() {
        None
    } else {
        match classify_verdict(raw, rules[i], known, imports) {
            Verdict::NoMatch => first_firing(raw, rules, known, imports, i + 1),
            _ => Some(i),
        }
    }
}

/// The rule `first_firing` stops at does not pass the match over.
pub proof fn lemma_first_firing_stops(raw: RawMatch, rules: Seq<ClassifyRule>, known: Seq<Seq<char>>, imports: Seq<Seq<char>>, i: int)
    requires
        0 <= i,
        first_firing(raw, rules, known, imports, i) is Some,
    ensures
        ({
            let k = first_firing(raw, rules, known, imports, i)->0;
            &&& i <= k < rules.len()
            &&& !(classify_verdict(raw, rules[k], known, imports) is NoMatch)
        }),
    decreases rules.len() - i,
{
    if i < rules.len() && classify_verdict(raw, rules[i], known, imports) is NoMatch {
        lemma_first_firing_stops(raw, rules, known, imports, i + 1);
    }
}

/// Classify one raw match against a pack: the rules are tried in order and
/// the first that fires wins; a rule that errs stops the search.
pub fn classify_match(
    raw: &RawMatch,
    pack: &RulePack,
    algorithms: &AlgorithmTable,
    path: &str,
    imports: &Vec<String>,
) -> (r: Result<Option<Finding>, ScanError>)
    ensures
        match first_firing(*raw, pack.classify@, algorithms.ids(), string_views(imports@), 0) {
            None => r matches Ok(None),
            Some(i) => classify_result(
                r,
                classify_verdict(*raw, pack.classify@[i], algorithms.ids(), string_views(imports@)),
                *raw,
                pack.classify@[i],
                path@,
            ),
        },
{
    let ghost kv = algorithms.ids();
    let ghost iv = string_views(imports@);
    let mut i: usize = 0;
    while i < pack.classify.len()
        invariant
            i <= pack.classify@.len(),
            kv == algorithms.ids(),
            iv == string_views(imports@),
            first_firing(*raw, pack.classify@, kv, iv, 0) == first_firing(*raw, pack.classify@, kv, iv, i as int),
        decreases pack.classify.len() - i,
    {
        let res = apply_classify(raw, &pack.classify[i], algorithms, path, imports);
        match res {
            Ok(None) => {},
            _ => {
                return res;
            },
        }
        i = i + 1;
    }
    Ok(None)
}

} // verus!
