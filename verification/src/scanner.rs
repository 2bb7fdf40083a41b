//! The source scanner's decisions: which rule pack a language uses, how the
//! raw matches of one file become findings, and how a per-file error
//! becomes a warning.
use vstd::prelude::*;
use vstd::string::*;
use crate::algorithms::AlgorithmTable;
use crate::classify::{ScanError, classify_match, classify_result, classify_verdict, first_firing, lemma_first_firing_stops, string_views};
use crate::extract::RawMatch;
use crate::findings::{Finding, ScanWarning, ScanWarningKind};
use crate::rules::{ExtractRow, Language, RuleRow, RulePack, extract_rows, pack_wf, rows_loadable, rule_rows};
use crate::packs::{cpp_extracts, cpp_rules, csharp_extracts, csharp_rules, go_extracts, go_rules, java_extracts, java_rules, javascript_extracts, javascript_rules, python_extracts, python_rules, rust_extracts, rust_rules};
use crate::collectors::{imports_spec, strs_of};
use crate::syntax::SyntaxTree;
use crate::text::owned;
use crate::walker::{bare_bindings_spec, extract_file, pq_aliases_spec, views, walk_from};

verus! {

/// Files larger than this are not scanned.
pub const MAX_SOURCE_BYTES: u64 = 16777216;

/// A file of `size` bytes is scanned only up to [`MAX_SOURCE_BYTES`];
/// a larger one is refused as too large.
pub fn check_source_size(path: &str, size: u64) -> (r: Result<(), ScanError>)
    ensures
        size <= MAX_SOURCE_BYTES <==> r is Ok,
        r matches Err(e) ==> (e matches ScanError::FileTooLarge { path: p, size: n } && p@ == path@ && n == size),
{
    if size > MAX_SOURCE_BYTES {
        Err(ScanError::FileTooLarge { path: owned(path), size })
    } else {
        Ok(())
    }
}

/// The scanner: one rule pack per language, and the algorithm table.
pub struct Scanner {
    rules_by_lang: Vec<(Language, RulePack)>,
    algorithms: AlgorithmTable,
}

/// The languages, in the order their packs are held.
pub open spec fn scanned_languages() -> Seq<Language> {
    seq![
        Language::Go,
        Language::Python,
        Language::Java,
        Language::JavaScript,
        Language::TypeScript,
        Language::C,
        Language::Cpp,
        Language::Rust,
        Language::CSharp,
    ]
}

/// The classify rows of the built-in pack a language is scanned with.
pub open spec fn builtin_rules_for(l: Language) -> Seq<RuleRow> {
    match l {
        Language::Go => go_rules(),
        Language::Python => python_rules(),
        Language::Java => java_rules(),
        Language::JavaScript | Language::TypeScript => javascript_rules(),
        Language::C | Language::Cpp => cpp_rules(),
        Language::Rust => rust_rules(),
        Language::CSharp => csharp_rules(),
    }
}

/// The extract rows of the built-in pack a language is scanned with.
pub open spec fn builtin_extracts_for(l: Language) -> Seq<ExtractRow> {
    match l {
        Language::Go => go_extracts(),
        Language::Python => python_extracts(),
        Language::Java => java_extracts(),
        Language::JavaScript | Language::TypeScript => javascript_extracts(),
        Language::C | Language::Cpp => cpp_extracts(),
        Language::Rust => rust_extracts(),
        Language::CSharp => csharp_extracts(),
    }
}

/// The pack of `l` holds exactly its built-in rows.
pub open spec fn holds_builtin_pack(l: Language, p: RulePack) -> bool {
    &&& pack_wf(p)
    &&& rule_rows(p.classify@) == builtin_rules_for(l)
    &&& extract_rows(p.extract@) == builtin_extracts_for(l)
}

fn load(l: Language, r: Result<RulePack, crate::rules::LoadError>) -> (out: Result<(Language, RulePack), ScanError>)
    ensures
        match r {
            Ok(p) => out matches Ok(e) && e.0 == l && e.1 == p,
            Err(_) => out matches Err(e) && e == ScanError::RuleLoad(l),
        },
{
    match r {
        Ok(p) => Ok((l, p)),
        Err(_) => Err(ScanError::RuleLoad(l)),
    }
}

impl Scanner {
    /// The rule packs, by language.
    pub closed spec fn packs(&self) -> Seq<(Language, RulePack)> {
        self.rules_by_lang@
    }

    /// The algorithm table findings are checked against.
    pub closed spec fn table(&self) -> AlgorithmTable {
        self.algorithms
    }

    #[verifier::type_invariant]
    closed spec fn wf(&self) -> bool {
        &&& self.rules_by_lang@.len() == scanned_languages().len()
        &&& forall|i: int| 0 <= i < self.rules_by_lang@.len() ==> (#[trigger] self.rules_by_lang@[i]).0
            == scanned_languages()[i] && pack_wf(self.rules_by_lang@[i].1)
    }

    /// A scanner with the built-in rule pack of every language; JavaScript
    /// and TypeScript share one pack, C and C++ another. A pack that fails
    /// to load is an error naming its language, the first in scan order.
    pub fn with_builtins(algorithms: AlgorithmTable) -> (r: Result<Scanner, ScanError>)
        ensures
            r is Ok <==> forall|i: int| 0 <= i < scanned_languages().len() ==> rows_loadable(
                builtin_rules_for(#[trigger] scanned_languages()[i]),
            ),
            r matches Ok(s) ==> s.table() == algorithms && s.packs().len() == scanned_languages().len()
                && forall|i: int| 0 <= i < s.packs().len() ==> (#[trigger] s.packs()[i]).0 == scanned_languages()[i]
                && holds_builtin_pack(scanned_languages()[i], s.packs()[i].1),
            r matches Err(e) ==> exists|i: int| 0 <= i < scanned_languages().len()
                && !rows_loadable(builtin_rules_for(#[trigger] scanned_languages()[i]))
                && (forall|k: int| 0 <= k < i ==> rows_loadable(builtin_rules_for(#[trigger] scanned_languages()[k])))
                && e == ScanError::RuleLoad(scanned_languages()[i]),
    {
        let mut v: Vec<(Language, RulePack)> = Vec::new();
        let entries = vec![
            Language::Go,
            Language::Python,
            Language::Java,
            Language::JavaScript,
            Language::TypeScript,
            Language::C,
            Language::Cpp,
            Language::Rust,
            Language::CSharp,
        ];
        assert(entries@ =~= scanned_languages());
        let mut i: usize = 0;
        while i < entries.len()
            invariant
                i <= entries@.len(),
                entries@ == scanned_languages(),
                v@.len() == i,
                forall|k: int| 0 <= k < i ==> (#[trigger] v@[k]).0 == scanned_languages()[k] && holds_builtin_pack(scanned_languages()[k], v@[k].1),
                forall|k: int| 0 <= k < i ==> rows_loadable(builtin_rules_for(#[trigger] scanned_languages()[k])),
            decreases entries.len() - i,
        {
            let l = entries[i];
            let pack = match l {
                Language::Go => RulePack::builtin_go(),
                Language::Python => RulePack::builtin_python(),
                Language::Java => RulePack::builtin_java(),
                Language::JavaScript | Language::TypeScript => RulePack::builtin_javascript(),
                Language::C | Language::Cpp => RulePack::builtin_cpp(),
                Language::Rust => RulePack::builtin_rust(),
                Language::CSharp => RulePack::builtin_csharp(),
            };
            assert(pack is Ok <==> rows_loadable(builtin_rules_for(l)));
            match load(l, pack) {
                Ok(e) => v.push(e),
                Err(e) => {
                    assert(!rows_loadable(builtin_rules_for(scanned_languages()[i as int])));
                    return Err(e);
                },
            }
            i = i + 1;
        }
        Ok(Scanner { rules_by_lang: v, algorithms })
    }

    /// The rule pack for `language`.
    pub fn rules_for(&self, language: Language) -> (r: &RulePack)
        ensures
            exists|i: int| 0 <= i < self.packs().len() && self.packs()[i].0 == language && self.packs()[i].1 == *r,
            pack_wf(*r),
            *r == self.rules_for_spec(language),
    {
        proof {
            use_type_invariant(self);
        }
        let idx: usize = match language {
            Language::Go => 0,
            Language::Python => 1,
            Language::Java => 2,
            Language::JavaScript => 3,
            Language::TypeScript => 4,
            Language::C => 5,
            Language::Cpp => 6,
            Language::Rust => 7,
            Language::CSharp => 8,
        };
        assert(self.rules_by_lang@[idx as int].0 == scanned_languages()[idx as int]);
        assert(self.packs()[idx as int].0 == language);
        &self.rules_by_lang[idx].1
    }

    /// Scan one parsed file: run the extract pass over its syntax tree,
    /// rooted at node 0, and append the findings its sites produce.
    pub fn scan_tree(
        &self,
        language: Language,
        t: &SyntaxTree,
        path: &str,
        out: &mut Vec<Finding>,
    ) -> (r: Result<(), ScanError>)
        requires
            t.view_nodes().len() > 0,
        ensures
            exists|ms: Seq<RawMatch>, ims: Seq<String>|
                #[trigger] extracted_as(t.view_nodes(), language, ms, ims) && (r is Ok ==> classified(
                    *self,
                    language,
                    ms,
                    ims,
                    path@,
                    old(out)@,
                    final(out)@,
                )) && (r is Err ==> stopped_at(*self, language, ms, ims, path@, old(out)@, final(out)@)),
            only_appends(old(out)@, final(out)@),
    {
        let extracted = extract_file(t, language);
        let ghost before = out@;
        let r = self.classify_file(language, &extracted.matches, path, &extracted.imports, out);
        assert(extracted_as(t.view_nodes(), language, extracted.matches@, extracted.imports@));
        assert(r is Ok ==> classified(*self, language, extracted.matches@, extracted.imports@, path@, before, out@));
        assert(r is Err ==> stopped_at(*self, language, extracted.matches@, extracted.imports@, path@, before, out@));
        r
    }

    /// The findings the raw matches of one file produce, appended to `out`
    /// in match order: each match gets the finding of the first rule of the
    /// language's pack that fires on it, if any. A rule that errs stops the
    /// file.
    pub fn classify_file(
        &self,
        language: Language,
        matches: &Vec<RawMatch>,
        path: &str,
        imports: &Vec<String>,
        out: &mut Vec<Finding>,
    ) -> (r: Result<(), ScanError>)
        ensures
            r is Ok ==> forall|m: int| 0 <= m < matches@.len() ==> settles(#[trigger] matches@[m], self.rules_for_spec(language), self.table(), imports@),
            r is Ok ==> final(out)@.len() == old(out)@.len() + firing(matches@, self.rules_for_spec(language), self.table(), imports@).len(),
            r is Ok ==> forall|j: int| 0 <= j < old(out)@.len() ==> #[trigger] final(out)@[j] == old(out)@[j],
            r is Ok ==> forall|j: int| 0 <= j < firing(matches@, self.rules_for_spec(language), self.table(), imports@).len() ==> produced(
                #[trigger] final(out)@[old(out)@.len() + j],
                matches@[firing(matches@, self.rules_for_spec(language), self.table(), imports@)[j]],
                self.rules_for_spec(language),
                self.table(),
                imports@,
                path@,
            ),
            r matches Err(e) ==> (e is RegexCompile || e is UnknownAlgorithm) && stopped_at(
                *self,
                language,
                matches@,
                imports@,
                path@,
                old(out)@,
                final(out)@,
            ),
            only_appends(old(out)@, final(out)@),
    {
        let pack = self.rules_for(language);
        let ghost rules = pack.classify@;
        let ghost spack = self.rules_for_spec(language);
        let ghost t = self.table();
        let mut i: usize = 0;
        while i < matches.len()
            invariant
                i <= matches@.len(),
                *pack == spack,
                spack == self.rules_for_spec(language),
                t == self.table(),
                self.algorithms == t,
                forall|m: int| 0 <= m < i ==> settles(#[trigger] matches@[m], spack, t, imports@),
                out@.len() == old(out)@.len() + firing(matches@.subrange(0, i as int), spack, t, imports@).len(),
                forall|j: int| 0 <= j < old(out)@.len() ==> #[trigger] out@[j] == old(out)@[j],
                forall|j: int| 0 <= j < firing(matches@.subrange(0, i as int), spack, t, imports@).len() ==> produced(
                    #[trigger] out@[old(out)@.len() + j],
                    matches@[firing(matches@.subrange(0, i as int), spack, t, imports@)[j]],
                    spack,
                    t,
                    imports@,
                    path@,
                ),
            decreases matches.len() - i,
        {
            let ghost pre = matches@.subrange(0, i as int);
            let ghost cur = matches@.subrange(0, i + 1);
            assert(cur.drop_last() =~= pre);
            assert(cur.last() == matches@[i as int]);
            let res = classify_match(&matches[i], pack, &self.algorithms, path, imports);
            proof {
                let ff = first_firing(matches@[i as int], pack.classify@, t.ids(), string_views(imports@), 0);
                if ff is Some {
                    lemma_first_firing_stops(matches@[i as int], pack.classify@, t.ids(), string_views(imports@), 0);
                }
            }
            match res {
                Ok(Some(f)) => {
                    let ghost before = out@;
                    out.push(f);
                    assert(fires(matches@[i as int], spack, t, imports@));
                    assert(firing(cur, spack, t, imports@) == firing(pre, spack, t, imports@).push(i as int));
                    assert forall|j: int| 0 <= j < firing(cur, spack, t, imports@).len() implies produced(
                        #[trigger] out@[old(out)@.len() + j],
                        matches@[firing(cur, spack, t, imports@)[j]],
                        spack,
                        t,
                        imports@,
                        path@,
                    ) by {
                        if j < firing(pre, spack, t, imports@).len() {
                            assert(out@[old(out)@.len() + j] == before[old(out)@.len() + j]);
                        }
                    }
                },
                Ok(None) => {
                    assert(!fires(matches@[i as int], spack, t, imports@));
                    assert(firing(cur, spack, t, imports@) == firing(pre, spack, t, imports@));
                },
                Err(e) => {
                    assert(!settles(matches@[i as int], spack, t, imports@));
                    assert forall|m: int| 0 <= m < pre.len() implies settles(#[trigger] pre[m], spack, t, imports@) by {
                        assert(pre[m] == matches@[m]);
                    }
                    assert(spack == self.rules_for_spec(language) && t == self.table());
                    assert(out@.len() == old(out)@.len() + firing(pre, spack, t, imports@).len());
                    assert(forall|j: int| 0 <= j < old(out)@.len() ==> #[trigger] out@[j] == old(out)@[j]);
                    proof {
                        lemma_firing_in_range(pre, spack, t, imports@);
                    }
                    assert forall|j: int| 0 <= j < firing(pre, spack, t, imports@).len() implies produced(#[trigger] out@[old(out)@.len() + j], pre[firing(pre, spack, t, imports@)[j]], spack, t, imports@, path@) by {
                        assert(pre[firing(pre, spack, t, imports@)[j]] == matches@[firing(pre, spack, t, imports@)[j]]);
                    }
                    assert(classified(*self, language, pre, imports@, path@, old(out)@, out@));
                    assert(stopped_at(*self, language, matches@, imports@, path@, old(out)@, out@));
                    return Err(e);
                },
            }
            assert(settles(matches@[i as int], spack, t, imports@));
            i = i + 1;
            assert(matches@.subrange(0, i as int) == cur);
        }
        assert(matches@.subrange(0, matches@.len() as int) =~= matches@);
        Ok(())
    }

    /// The pack `rules_for` gives for a language.
    pub closed spec fn rules_for_spec(&self, language: Language) -> RulePack {
        let idx: int = match language {
            Language::Go => 0,
            Language::Python => 1,
            Language::Java => 2,
            Language::JavaScript => 3,
            Language::TypeScript => 4,
            Language::C => 5,
            Language::Cpp => 6,
            Language::Rust => 7,
            Language::CSharp => 8,
        };
        self.rules_by_lang@[idx].1
    }
}

/// `ms` and `ims` are the sites and import targets the extract pass finds
/// in the file whose nodes are `ns`.
pub open spec fn extracted_as(ns: Seq<crate::syntax::SyntaxNode>, language: Language, ms: Seq<RawMatch>, ims: Seq<String>) -> bool {
    &&& views(ms) == walk_from(ns, 0, -1, 0, language, bare_bindings_spec(ns, 0, language), pq_aliases_spec(ns, 0, language))
    &&& strs_of(ims) == imports_spec(ns, 0, language)
}

/// `after` is `before` with the findings the matches `ms` produce appended,
/// in match order, and no rule erred on any of them.
pub open spec fn classified(
    s: Scanner,
    language: Language,
    ms: Seq<RawMatch>,
    ims: Seq<String>,
    path: Seq<char>,
    before: Seq<Finding>,
    after: Seq<Finding>,
) -> bool {
    let pack = s.rules_for_spec(language);
    let fs = firing(ms, pack, s.table(), ims);
    &&& forall|m: int| 0 <= m < ms.len() ==> settles(#[trigger] ms[m], pack, s.table(), ims)
    &&& after.len() == before.len() + fs.len()
    &&& forall|j: int| 0 <= j < before.len() ==> #[trigger] after[j] == before[j]
    &&& forall|j: int| 0 <= j < fs.len() ==> produced(#[trigger] after[before.len() + j], ms[fs[j]], pack, s.table(), ims, path)
}

/// The scan of `ms` stopped at a match some rule erred on: `after` is
/// `before` with the findings of the matches before it appended, and every
/// one of those settled.
pub open spec fn stopped_at(
    s: Scanner,
    language: Language,
    ms: Seq<RawMatch>,
    ims: Seq<String>,
    path: Seq<char>,
    before: Seq<Finding>,
    after: Seq<Finding>,
) -> bool {
    exists|m: int|
        0 <= m < ms.len() && !settles(#[trigger] ms[m], s.rules_for_spec(language), s.table(), ims) && classified(
            s,
            language,
            ms.subrange(0, m),
            ims,
            path,
            before,
            after,
        )
}

proof fn lemma_firing_in_range(ms: Seq<RawMatch>, pack: RulePack, t: AlgorithmTable, ims: Seq<String>)
    ensures
        forall|j: int| 0 <= j < firing(ms, pack, t, ims).len() ==> 0 <= #[trigger] firing(ms, pack, t, ims)[j] < ms.len(),
    decreases ms.len(),
{
    if ms.len() > 0 {
        lemma_firing_in_range(ms.drop_last(), pack, t, ims);
        let prev = firing(ms.drop_last(), pack, t, ims);
        assert forall|j: int| 0 <= j < firing(ms, pack, t, ims).len() implies 0 <= #[trigger] firing(ms, pack, t, ims)[j] < ms.len() by {
            if j < prev.len() {
                assert(firing(ms, pack, t, ims)[j] == prev[j]);
            }
        }
    }
}

/// `after` keeps every entry of `before`, in place, and may only add more.
pub open spec fn only_appends(before: Seq<Finding>, after: Seq<Finding>) -> bool {
    &&& before.len() <= after.len()
    &&& forall|j: int| 0 <= j < before.len() ==> #[trigger] after[j] == before[j]
}

/// A match is settled when the first rule that does not pass it over fires
/// or there is none: no rule errs on it.
pub open spec fn settles(raw: RawMatch, pack: RulePack, t: AlgorithmTable, imports: Seq<String>) -> bool {
    let iv = string_views(imports);
    match first_firing(raw, pack.classify@, t.ids(), iv, 0) {
        None => true,
        Some(i) => classify_verdict(raw, pack.classify@[i], t.ids(), iv) is Fires,
    }
}

/// The first rule that does not pass `raw` over fires on it.
pub open spec fn fires(raw: RawMatch, pack: RulePack, t: AlgorithmTable, imports: Seq<String>) -> bool {
    let iv = string_views(imports);
    match first_firing(raw, pack.classify@, t.ids(), iv, 0) {
        None => false,
        Some(i) => classify_verdict(raw, pack.classify@[i], t.ids(), iv) is Fires,
    }
}

/// The positions of the matches a rule fires on, in order.
pub open spec fn firing(matches: Seq<RawMatch>, pack: RulePack, t: AlgorithmTable, imports: Seq<String>) -> Seq<int>
    decreases matches.len(),
{
    if matches.len() == 0 {
        Seq::empty()
    } else {
        let prev = firing(matches.drop_last(), pack, t, imports);
        if fires(matches.last(), pack, t, imports) {
            prev.push(matches.len() - 1)
        } else {
            prev
        }
    }
}

/// `f` is the finding the first firing rule of `pack` produces for `raw`.
pub open spec fn produced(f: Finding, raw: RawMatch, pack: RulePack, t: AlgorithmTable, imports: Seq<String>, path: Seq<char>) -> bool {
    let iv = string_views(imports);
    match first_firing(raw, pack.classify@, t.ids(), iv, 0) {
        None => false,
        Some(i) => classify_result(
            Ok(Some(f)),
            classify_verdict(raw, pack.classify@[i], t.ids(), iv),
            raw,
            pack.classify@[i],
            path,
        ),
    }
}

/// The warning kind a per-file error is reported under.
pub open spec fn warning_kind_for(e: ScanError) -> ScanWarningKind {
    match e {
        ScanError::Io(_) => ScanWarningKind::UnreadableFile,
        ScanError::GrammarLoad(_) => ScanWarningKind::ParseError,
        ScanError::RegexCompile(_) => ScanWarningKind::Other,
        ScanError::Walk(_) => ScanWarningKind::WalkError,
        ScanError::UnknownAlgorithm(_) => ScanWarningKind::Other,
        ScanError::FileTooLarge { .. } => ScanWarningKind::UnreadableFile,
        ScanError::RuleLoad(_) => ScanWarningKind::Other,
    }
}

/// A language's name as it appears in messages.
pub open spec fn language_text(l: Language) -> Seq<char> {
    match l {
        Language::Go => "Go"@,
        Language::Python => "Python"@,
        Language::Java => "Java"@,
        Language::JavaScript => "JavaScript"@,
        Language::TypeScript => "TypeScript"@,
        Language::C => "C"@,
        Language::Cpp => "Cpp"@,
        Language::Rust => "Rust"@,
        Language::CSharp => "CSharp"@,
    }
}

fn language_name(l: Language) -> (r: &'static str)
    ensures
        r@ == language_text(l),
{
    match l {
        Language::Go => "Go",
        Language::Python => "Python",
        Language::Java => "Java",
        Language::JavaScript => "JavaScript",
        Language::TypeScript => "TypeScript",
        Language::C => "C",
        Language::Cpp => "Cpp",
        Language::Rust => "Rust",
        Language::CSharp => "CSharp",
    }
}

/// The one-line text of a scan error.
pub open spec fn scan_error_text(e: ScanError) -> Seq<char> {
    match e {
        ScanError::Io(m) => "I/O: "@ + m@,
        ScanError::UnknownAlgorithm(id) => "unknown algorithm id: "@ + id@,
        ScanError::RegexCompile(m) => "regex compile failed: "@ + m@,
        ScanError::Walk(m) => "walk: "@ + m@,
        ScanError::GrammarLoad(l) => "tree-sitter language load failed for "@ + language_text(l),
        ScanError::FileTooLarge { path, size } => "file too large to scan: "@ + path@ + " ("@
            + crate::extract::int_text(size as int) + " bytes)"@,
        ScanError::RuleLoad(l) => "built-in rules failed to load for "@ + language_text(l),
    }
}

impl ScanError {
    /// The error as one line of text.
    pub fn message(&self) -> (s: String)
        ensures
            s@ == scan_error_text(*self),
    {
        match self {
            ScanError::Io(m) => {
                let mut s = owned("I/O: ");
                s.append(m.as_str());
                s
            },
            ScanError::GrammarLoad(l) => {
                let mut s = owned("tree-sitter language load failed for ");
                s.append(language_name(*l));
                s
            },
            ScanError::UnknownAlgorithm(id) => {
                let mut s = owned("unknown algorithm id: ");
                s.append(id.as_str());
                s
            },
            ScanError::RegexCompile(m) => {
                let mut s = owned("regex compile failed: ");
                s.append(m.as_str());
                s
            },
            ScanError::Walk(m) => {
                let mut s = owned("walk: ");
                s.append(m.as_str());
                s
            },
            ScanError::FileTooLarge { path, size } => {
                let mut s = owned("file too large to scan: ");
                s.append(path.as_str());
                s.append(" (");
                s.append(crate::text::string_from_chars(&crate::extract::digits_of(*size)).as_str());
                s.append(" bytes)");
                s
            },
            ScanError::RuleLoad(l) => {
                let mut s = owned("built-in rules failed to load for ");
                s.append(language_name(*l));
                s
            },
        }
    }
}

/// The structured warning a per-file error becomes.
pub fn scan_warning_for(path: &str, err: &ScanError) -> (w: ScanWarning)
    ensures
        w.kind == warning_kind_for(*err),
        w.path matches Some(p) && p@ == path@,
        w.message@ == scan_error_text(*err),
{
    let kind = match err {
        ScanError::Io(_) => ScanWarningKind::UnreadableFile,
        ScanError::GrammarLoad(_) => ScanWarningKind::ParseError,
        ScanError::RegexCompile(_) => ScanWarningKind::Other,
        ScanError::Walk(_) => ScanWarningKind::WalkError,
        ScanError::UnknownAlgorithm(_) => ScanWarningKind::Other,
        ScanError::FileTooLarge { .. } => ScanWarningKind::UnreadableFile,
        ScanError::RuleLoad(_) => ScanWarningKind::Other,
    };
    ScanWarning::new(kind, Some(owned(path)), err.message())
}

} // verus!
