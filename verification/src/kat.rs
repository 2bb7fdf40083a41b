//! Known-answer tests against NIST ACVP vectors. Nothing here runs an
//! algorithm: candidate outputs supplied by the caller are compared with
//! the expected values the vector set pins, test case by test case.
use vstd::prelude::*;
use vstd::string::*;
use crate::extract::int_text;
use crate::text::{owned, str_eq, to_lowercase, unicode_lower};

verus! {

/// The error code a refused ruleset or vector request carries.
pub const E_RULESET_INVALID: i32 = -32002;

/// The string- and boolean-valued members of one JSON object.
#[derive(Debug, Clone)]
pub struct JsonFields {
    pub strings: Vec<(String, String)>,
    pub bools: Vec<(String, bool)>,
}

/// One test case of a vector set.
#[derive(Debug, Clone)]
pub struct KatCase {
    /// `tcId`, when it is an unsigned integer.
    pub tc_id: Option<u64>,
    pub fields: JsonFields,
}

/// One test group of a vector set.
#[derive(Debug, Clone)]
pub struct KatGroup {
    /// `tgId`, when it is an unsigned integer.
    pub tg_id: Option<u64>,
    /// `tests`, when it is an array.
    pub tests: Option<Vec<KatCase>>,
}

/// A vector set.
#[derive(Debug, Clone)]
pub struct VectorSet {
    /// The JSON text of `vsId`, when present.
    pub vs_id: Option<String>,
    /// `testGroups`, when it is an array.
    pub test_groups: Option<Vec<KatGroup>>,
}

/// Candidate outputs, keyed by the decimal text of a `tcId`.
#[derive(Debug, Clone)]
pub struct CandidateOutputs {
    pub entries: Vec<(String, JsonFields)>,
}

#[derive(Debug, Clone)]
pub struct Failure {
    pub tc_id: u64,
    pub field: String,
    pub expected: String,
    pub got: String,
}

#[derive(Debug, Clone)]
pub struct GroupSummary {
    pub name: String,
    pub total: usize,
    pub passed: usize,
    pub failed: usize,
}

#[derive(Debug, Clone)]
pub struct VectorSource {
    pub authority: String,
    pub set_version: String,
}

#[derive(Debug, Clone)]
pub struct KatResult {
    pub algorithm: String,
    pub parameter_set: String,
    pub acvp_mode: String,
    pub vector_source: VectorSource,
    pub groups: Vec<GroupSummary>,
    pub overall: String,
    pub failures: Vec<Failure>,
}


/// The first string member called `key`.
pub open spec fn str_lookup(f: Seq<(String, String)>, key: Seq<char>) -> Option<Seq<char>>
    decreases f.len(),
{
    if f.len() == 0 {
        None
    } else if f[0].0@ == key {
        Some(f[0].1@)
    } else {
        str_lookup(f.drop_first(), key)
    }
}

/// The first boolean member called `key`.
pub open spec fn bool_lookup(f: Seq<(String, bool)>, key: Seq<char>) -> Option<bool>
    decreases f.len(),
{
    if f.len() == 0 {
        None
    } else if f[0].0@ == key {
        Some(f[0].1)
    } else {
        bool_lookup(f.drop_first(), key)
    }
}

/// The candidate output recorded under `key`.
pub open spec fn cand_lookup(c: Seq<(String, JsonFields)>, key: Seq<char>) -> Option<JsonFields>
    decreases c.len(),
{
    if c.len() == 0 {
        None
    } else if c[0].0@ == key {
        Some(c[0].1)
    } else {
        cand_lookup(c.drop_first(), key)
    }
}

fn find_str<'a>(f: &'a Vec<(String, String)>, key: &str) -> (r: Option<&'a String>)
    ensures
        match r {
            Some(s) => str_lookup(f@, key@) == Some(s@),
            None => str_lookup(f@, key@) is None,
        },
{
    let mut i: usize = 0;
    assert(f@.subrange(0, f@.len() as int) =~= f@);
    while i < f.len()
        invariant
            i <= f@.len(),
            str_lookup(f@, key@) == str_lookup(f@.subrange(i as int, f@.len() as int), key@),
        decreases f.len() - i,
    {
        let ghost rest = f@.subrange(i as int, f@.len() as int);
        assert(rest.drop_first() =~= f@.subrange(i + 1, f@.len() as int));
        if str_eq(f[i].0.as_str(), key) {
            return Some(&f[i].1);
        }
        i = i + 1;
    }
    None
}

fn find_bool(f: &Vec<(String, bool)>, key: &str) -> (r: Option<bool>)
    ensures
        r == bool_lookup(f@, key@),
{
    let mut i: usize = 0;
    assert(f@.subrange(0, f@.len() as int) =~= f@);
    while i < f.len()
        invariant
            i <= f@.len(),
            bool_lookup(f@, key@) == bool_lookup(f@.subrange(i as int, f@.len() as int), key@),
        decreases f.len() - i,
    {
        let ghost rest = f@.subrange(i as int, f@.len() as int);
        assert(rest.drop_first() =~= f@.subrange(i + 1, f@.len() as int));
        if str_eq(f[i].0.as_str(), key) {
            return Some(f[i].1);
        }
        i = i + 1;
    }
    None
}

fn find_candidate<'a>(c: &'a CandidateOutputs, key: &str) -> (r: Option<&'a JsonFields>)
    ensures
        match r {
            Some(j) => cand_lookup(c.entries@, key@) == Some(*j),
            None => cand_lookup(c.entries@, key@) is None,
        },
{
    let mut i: usize = 0;
    assert(c.entries@.subrange(0, c.entries@.len() as int) =~= c.entries@);
    while i < c.entries.len()
        invariant
            i <= c.entries@.len(),
            cand_lookup(c.entries@, key@) == cand_lookup(c.entries@.subrange(i as int, c.entries@.len() as int), key@),
        decreases c.entries.len() - i,
    {
        let ghost rest = c.entries@.subrange(i as int, c.entries@.len() as int);
        assert(rest.drop_first() =~= c.entries@.subrange(i + 1, c.entries@.len() as int));
        if str_eq(c.entries[i].0.as_str(), key) {
            return Some(&c.entries[i].1);
        }
        i = i + 1;
    }
    None
}

/// What a known-answer check compares.
pub enum KatCheck {
    /// These string fields, lower-cased.
    Fields(Seq<Seq<char>>),
    /// The boolean `testPassed`.
    SigVer,
}

/// A failure, as values: test case, field, expected, got.
pub type FailView = (u64, Seq<char>, Seq<char>, Seq<char>);

/// A group summary, as values: name, total, passed, failed.
pub type GroupView = (Seq<char>, int, int, int);

pub open spec fn or_empty(o: Option<Seq<char>>) -> Seq<char> {
    match o {
        Some(s) => s,
        None => Seq::empty(),
    }
}

/// The id a test case is reported and looked up under.
pub open spec fn tc_key(tc: KatCase) -> u64 {
    match tc.tc_id {
        Some(n) => n,
        None => 0,
    }
}

/// The candidate output for a test case.
pub open spec fn candidate_of(cands: CandidateOutputs, tc: KatCase) -> Option<JsonFields> {
    cand_lookup(cands.entries@, int_text(tc_key(tc) as int))
}

pub open spec fn expected_field(tc: KatCase, field: Seq<char>) -> Seq<char> {
    unicode_lower(or_empty(str_lookup(tc.fields.strings@, field)))
}

pub open spec fn got_field(cands: CandidateOutputs, tc: KatCase, field: Seq<char>) -> Seq<char> {
    unicode_lower(
        match candidate_of(cands, tc) {
            Some(c) => or_empty(str_lookup(c.strings@, field)),
            None => Seq::empty(),
        },
    )
}

/// The failures of one test case over the first `fields` checked.
pub open spec fn field_failures(tc: KatCase, cands: CandidateOutputs, fields: Seq<Seq<char>>) -> Seq<FailView>
    decreases fields.len(),
{
    if fields.len() == 0 {
        Seq::empty()
    } else {
        let prev = field_failures(tc, cands, fields.drop_last());
        let f = fields.last();
        if expected_field(tc, f) != got_field(cands, tc, f) {
            prev.push((tc_key(tc), f, expected_field(tc, f), got_field(cands, tc, f)))
        } else {
            prev
        }
    }
}

pub open spec fn bool_text(b: bool) -> Seq<char> {
    if b {
        "true"@
    } else {
        "false"@
    }
}

pub open spec fn expected_pass(tc: KatCase) -> bool {
    match bool_lookup(tc.fields.bools@, "testPassed"@) {
        Some(b) => b,
        None => false,
    }
}

/// A missing verdict counts as the wrong one.
pub open spec fn got_pass(cands: CandidateOutputs, tc: KatCase) -> bool {
    match candidate_of(cands, tc) {
        Some(c) => match bool_lookup(c.bools@, "testPassed"@) {
            Some(b) => b,
            None => !expected_pass(tc),
        },
        None => !expected_pass(tc),
    }
}

/// The failures of one test case.
pub open spec fn case_failures(tc: KatCase, cands: CandidateOutputs, check: KatCheck) -> Seq<FailView> {
    match check {
        KatCheck::Fields(fields) => field_failures(tc, cands, fields),
        KatCheck::SigVer => if expected_pass(tc) != got_pass(cands, tc) {
            seq![(tc_key(tc), "testPassed"@, bool_text(expected_pass(tc)), bool_text(got_pass(cands, tc)))]
        } else {
            Seq::empty()
        },
    }
}

/// In sigVer a test case passes exactly when a candidate output for it
/// states the expected verdict. A case with no candidate output fails with
/// one `testPassed` failure that reports the opposite verdict as got.
pub proof fn lemma_sigver_case_verdict(tc: KatCase, cands: CandidateOutputs)
    ensures
        case_failures(tc, cands, KatCheck::SigVer).len() == 0 <==> (candidate_of(cands, tc) matches Some(c) && bool_lookup(
            c.bools@,
            "testPassed"@,
        ) == Some(expected_pass(tc))),
        candidate_of(cands, tc) is None ==> case_failures(tc, cands, KatCheck::SigVer) == seq![
            (tc_key(tc), "testPassed"@, bool_text(expected_pass(tc)), bool_text(!expected_pass(tc))),
        ],
{
}

proof fn lemma_case_failure_in_cases(tests: Seq<KatCase>, cands: CandidateOutputs, check: KatCheck, k: int)
    requires
        0 <= k < tests.len(),
        case_failures(tests[k], cands, check).len() > 0,
    ensures
        cases_failures(tests, cands, check).len() > 0,
    decreases tests.len(),
{
    if k < tests.len() - 1 {
        assert(tests.drop_last()[k] == tests[k]);
        lemma_case_failure_in_cases(tests.drop_last(), cands, check, k);
    }
}

proof fn lemma_group_failures_grow(gs: Seq<KatGroup>, cands: CandidateOutputs, check: KatCheck, g: int)
    requires
        0 <= g < gs.len(),
        gs[g].tests matches Some(t) && cases_failures(t@, cands, check).len() > 0,
    ensures
        group_failures(gs, cands, check).len() > 0,
    decreases gs.len(),
{
    if g < gs.len() - 1 {
        assert(gs.drop_last()[g] == gs[g]);
        lemma_group_failures_grow(gs.drop_last(), cands, check, g);
    }
}

/// One failing test case fails the whole run: its failure is reported and
/// the overall result is `fail`.
pub proof fn lemma_failing_case_fails_run(
    r: KatResult,
    algorithm: Seq<char>,
    parameter_set: Seq<char>,
    mode: Seq<char>,
    v: VectorSet,
    cands: CandidateOutputs,
    check: KatCheck,
    g: int,
    k: int,
)
    requires
        kat_outcome(r, algorithm, parameter_set, mode, v, cands, check),
        0 <= g < v.test_groups->0@.len(),
        v.test_groups->0@[g].tests matches Some(t) && 0 <= k < t@.len() && case_failures(t@[k], cands, check).len() > 0,
    ensures
        r.failures@.len() > 0,
        r.overall@ == "fail"@,
{
    let gs = v.test_groups->0@;
    let t = gs[g].tests->0;
    lemma_case_failure_in_cases(t@, cands, check, k);
    lemma_group_failures_grow(gs, cands, check, g);
    assert(fail_views(r.failures@).len() == r.failures@.len());
}

/// The failures of a list of test cases, in order.
pub open spec fn cases_failures(tests: Seq<KatCase>, cands: CandidateOutputs, check: KatCheck) -> Seq<FailView>
    decreases tests.len(),
{
    if tests.len() == 0 {
        Seq::empty()
    } else {
        cases_failures(tests.drop_last(), cands, check) + case_failures(tests.last(), cands, check)
    }
}

/// How many of the test cases fail.
pub open spec fn cases_failed(tests: Seq<KatCase>, cands: CandidateOutputs, check: KatCheck) -> int
    decreases tests.len(),
{
    if tests.len() == 0 {
        0
    } else {
        cases_failed(tests.drop_last(), cands, check) + if case_failures(tests.last(), cands, check).len() > 0 {
            1int
        } else {
            0int
        }
    }
}

pub open spec fn tg_key(g: KatGroup) -> u64 {
    match g.tg_id {
        Some(n) => n,
        None => 0,
    }
}

/// The summaries of the groups that hold a test list, in order.
pub open spec fn group_summaries(groups: Seq<KatGroup>, cands: CandidateOutputs, check: KatCheck) -> Seq<GroupView>
    decreases groups.len(),
{
    if groups.len() == 0 {
        Seq::empty()
    } else {
        let prev = group_summaries(groups.drop_last(), cands, check);
        let g = groups.last();
        match g.tests {
            Some(t) => {
                let failed = cases_failed(t@, cands, check);
                prev.push(("tg"@ + int_text(tg_key(g) as int), t@.len() as int, t@.len() - failed, failed))
            },
            None => prev,
        }
    }
}

/// Every failure of every group, in order.
pub open spec fn group_failures(groups: Seq<KatGroup>, cands: CandidateOutputs, check: KatCheck) -> Seq<FailView>
    decreases groups.len(),
{
    if groups.len() == 0 {
        Seq::empty()
    } else {
        let prev = group_failures(groups.drop_last(), cands, check);
        match groups.last().tests {
            Some(t) => prev + cases_failures(t@, cands, check),
            None => prev,
        }
    }
}

pub open spec fn fail_views(v: Seq<Failure>) -> Seq<FailView> {
    v.map_values(|f: Failure| (f.tc_id, f.field@, f.expected@, f.got@))
}

pub open spec fn summary_views(v: Seq<GroupSummary>) -> Seq<GroupView> {
    v.map_values(|g: GroupSummary| (g.name@, g.total as int, g.passed as int, g.failed as int))
}

proof fn lemma_cases_failed_bounds(tests: Seq<KatCase>, cands: CandidateOutputs, check: KatCheck)
    ensures
        0 <= cases_failed(tests, cands, check) <= tests.len(),
        cases_failed(tests, cands, check) == 0 <==> cases_failures(tests, cands, check).len() == 0,
    decreases tests.len(),
{
    if tests.len() > 0 {
        lemma_cases_failed_bounds(tests.drop_last(), cands, check);
    }
}

/// Every group summary adds up: its passed and failed cases make its
/// total, and it has failed cases exactly when it contributes failures.
pub proof fn lemma_group_summaries_add_up(groups: Seq<KatGroup>, cands: CandidateOutputs, check: KatCheck)
    ensures
        forall|k: int| 0 <= k < group_summaries(groups, cands, check).len() ==> {
            let g = #[trigger] group_summaries(groups, cands, check)[k];
            &&& g.2 + g.3 == g.1
            &&& 0 <= g.3 <= g.1
        },
        group_failures(groups, cands, check).len() == 0 <==> forall|k: int| 0 <= k < group_summaries(groups, cands, check).len()
            ==> (#[trigger] group_summaries(groups, cands, check)[k]).3 == 0,
    decreases groups.len(),
{
    if groups.len() > 0 {
        lemma_group_summaries_add_up(groups.drop_last(), cands, check);
        let prev = group_summaries(groups.drop_last(), cands, check);
        match groups.last().tests {
            Some(t) => {
                lemma_cases_failed_bounds(t@, cands, check);
                let cur = group_summaries(groups, cands, check);
                assert(cur == prev.push(cur.last()));
                assert forall|k: int| 0 <= k < cur.len() implies ({
                    let g = #[trigger] cur[k];
                    &&& g.2 + g.3 == g.1
                    &&& 0 <= g.3 <= g.1
                }) by {
                    if k < prev.len() {
                        assert(cur[k] == prev[k]);
                    }
                }
                if group_failures(groups, cands, check).len() == 0 {
                    assert forall|k: int| 0 <= k < cur.len() implies (#[trigger] cur[k]).3 == 0 by {
                        if k < prev.len() {
                            assert(cur[k] == prev[k]);
                        }
                    }
                } else {
                    if group_failures(groups.drop_last(), cands, check).len() == 0 {
                        assert(cur[cur.len() - 1].3 != 0);
                    } else {
                        let k = choose|k: int| 0 <= k < prev.len() && (#[trigger] prev[k]).3 != 0;
                        assert(cur[k] == prev[k]);
                    }
                }
            },
            None => {},
        }
    }
}

fn decimal(n: u64) -> (s: String)
    ensures
        s@ == int_text(n as int),
{
    crate::text::string_from_chars(&crate::extract::digits_of(n))
}

/// The failures of one test case.
fn check_case(tc: &KatCase, cands: &CandidateOutputs, fields: Option<&Vec<String>>, ghost_check: Ghost<KatCheck>) -> (r: Vec<Failure>)
    requires
        match ghost_check@ {
            KatCheck::Fields(fs) => fields matches Some(v) && v@.map_values(|s: String| s@) == fs,
            KatCheck::SigVer => fields is None,
        },
    ensures
        fail_views(r@) == case_failures(*tc, *cands, ghost_check@),
{
    let tc_id: u64 = match tc.tc_id {
        Some(n) => n,
        None => 0,
    };
    let key = decimal(tc_id);
    let cand = find_candidate(cands, key.as_str());
    let mut out: Vec<Failure> = Vec::new();
    match fields {
        Some(fs) => {
            let ghost names = fs@.map_values(|s: String| s@);
            let mut i: usize = 0;
            while i < fs.len()
                invariant
                    i <= fs@.len(),
                    names == fs@.map_values(|s: String| s@),
                    tc_id == tc_key(*tc),
                    match cand {
                        Some(c) => candidate_of(*cands, *tc) == Some(*c),
                        None => candidate_of(*cands, *tc) is None,
                    },
                    fail_views(out@) == field_failures(*tc, *cands, names.subrange(0, i as int)),
                decreases fs.len() - i,
            {
                let field = fs[i].as_str();
                let expected = match find_str(&tc.fields.strings, field) {
                    Some(s) => to_lowercase(s.as_str()),
                    None => to_lowercase(""),
                };
                let got = match cand {
                    Some(c) => match find_str(&c.strings, field) {
                        Some(s) => to_lowercase(s.as_str()),
                        None => to_lowercase(""),
                    },
                    None => to_lowercase(""),
                };
                proof {
                    reveal_strlit("");
                    assert(""@ =~= Seq::<char>::empty());
                    assert(names.subrange(0, i + 1).drop_last() =~= names.subrange(0, i as int));
                    assert(names.subrange(0, i + 1).last() == names[i as int]);
                }
                if !str_eq(expected.as_str(), got.as_str()) {
                    let ghost prev = out@;
                    out.push(Failure { tc_id, field: fs[i].clone(), expected, got });
                    assert(fail_views(out@) =~= fail_views(prev).push(fail_views(out@).last()));
                }
                i = i + 1;
            }
            assert(names.subrange(0, fs@.len() as int) =~= names);
        },
        None => {
            let expected = match find_bool(&tc.fields.bools, "testPassed") {
                Some(b) => b,
                None => false,
            };
            let got = match cand {
                Some(c) => match find_bool(&c.bools, "testPassed") {
                    Some(b) => b,
                    None => !expected,
                },
                None => !expected,
            };
            if expected != got {
                let e = if expected { owned("true") } else { owned("false") };
                let g = if got { owned("true") } else { owned("false") };
                out.push(Failure { tc_id, field: owned("testPassed"), expected: e, got: g });
                assert(fail_views(out@) =~= case_failures(*tc, *cands, ghost_check@));
            }
        },
    }
    out
}

/// Check every case of one group: its summary, and its failures appended
/// to `failures`.
fn check_group(
    tg: &KatGroup,
    tests: &Vec<KatCase>,
    cands: &CandidateOutputs,
    fields: Option<&Vec<String>>,
    ghost_check: Ghost<KatCheck>,
    failures: &mut Vec<Failure>,
) -> (r: GroupSummary)
    requires
        match ghost_check@ {
            KatCheck::Fields(fs) => fields matches Some(v) && v@.map_values(|s: String| s@) == fs,
            KatCheck::SigVer => fields is None,
        },
    ensures
        fail_views(final(failures)@) == fail_views(old(failures)@) + cases_failures(tests@, *cands, ghost_check@),
        (r.name@, r.total as int, r.passed as int, r.failed as int) == ("tg"@ + int_text(tg_key(*tg) as int), tests@.len() as int,
            tests@.len() - cases_failed(tests@, *cands, ghost_check@), cases_failed(tests@, *cands, ghost_check@)),
{
    let ghost start = fail_views(failures@);
    let mut total: usize = 0;
    let mut passed: usize = 0;
    let mut failed: usize = 0;
    let mut i: usize = 0;
    while i < tests.len()
        invariant
            i <= tests@.len(),
            total == i,
            failed as int == cases_failed(tests@.subrange(0, i as int), *cands, ghost_check@),
            passed + failed == i,
            fail_views(failures@) == start + cases_failures(tests@.subrange(0, i as int), *cands, ghost_check@),
            match ghost_check@ {
                KatCheck::Fields(fs) => fields matches Some(v) && v@.map_values(|s: String| s@) == fs,
                KatCheck::SigVer => fields is None,
            },
        decreases tests.len() - i,
    {
        let fs = check_case(&tests[i], cands, fields, ghost_check);
        let ghost cur = tests@.subrange(0, i + 1);
        assert(cur.drop_last() =~= tests@.subrange(0, i as int));
        assert(cur.last() == tests@[i as int]);
        total = total + 1;
        let ghost before = fail_views(failures@);
        let n = fs.len();
        let mut fs = fs;
        failures.append(&mut fs);
        assert(fail_views(failures@) =~= before + case_failures(tests@[i as int], *cands, ghost_check@));
        if n > 0 {
            failed = failed + 1;
        } else {
            passed = passed + 1;
        }
        i = i + 1;
        assert(tests@.subrange(0, i as int) == cur);
    }
    assert(tests@.subrange(0, tests@.len() as int) =~= tests@);
    let mut name = owned("tg");
    let id: u64 = match tg.tg_id {
        Some(n) => n,
        None => 0,
    };
    name.append(decimal(id).as_str());
    GroupSummary { name, total, passed, failed }
}

/// The result a vector set yields for `check`.
pub open spec fn kat_outcome(r: KatResult, algorithm: Seq<char>, parameter_set: Seq<char>, mode: Seq<char>, v: VectorSet, cands: CandidateOutputs, check: KatCheck) -> bool {
    let gs = v.test_groups->0@;
    &&& r.algorithm@ == algorithm
    &&& r.parameter_set@ == parameter_set
    &&& r.acvp_mode@ == mode
    &&& r.vector_source.authority@ == "NIST-ACVP"@
    &&& r.vector_source.set_version@ == match v.vs_id {
        Some(s) => s@,
        None => "unknown"@,
    }
    &&& summary_views(r.groups@) == group_summaries(gs, cands, check)
    &&& fail_views(r.failures@) == group_failures(gs, cands, check)
    &&& r.overall@ == if group_failures(gs, cands, check).len() == 0 {
        "pass"@
    } else {
        "fail"@
    }
}

fn check_set(
    algorithm: &str,
    parameter_set: &str,
    mode: &str,
    vector_data: &VectorSet,
    cands: &CandidateOutputs,
    fields: Option<&Vec<String>>,
    ghost_check: Ghost<KatCheck>,
) -> (r: Result<KatResult, (i32, String)>)
    requires
        match ghost_check@ {
            KatCheck::Fields(fs) => fields matches Some(v) && v@.map_values(|s: String| s@) == fs,
            KatCheck::SigVer => fields is None,
        },
    ensures
        match r {
            Ok(k) => vector_data.test_groups is Some && kat_outcome(k, algorithm@, parameter_set@, mode@, *vector_data, *cands, ghost_check@),
            Err(e) => vector_data.test_groups is None && e.0 == E_RULESET_INVALID,
        },
{
    let groups = match &vector_data.test_groups {
        Some(g) => g,
        None => {
            return Err((E_RULESET_INVALID, owned("bundled vector JSON missing testGroups")));
        },
    };
    let set_version = match &vector_data.vs_id {
        Some(s) => s.clone(),
        None => owned("unknown"),
    };
    let mut summaries: Vec<GroupSummary> = Vec::new();
    let mut failures: Vec<Failure> = Vec::new();
    let mut g: usize = 0;
    while g < groups.len()
        invariant
            g <= groups@.len(),
            vector_data.test_groups == Some(*groups),
            summary_views(summaries@) == group_summaries(groups@.subrange(0, g as int), *cands, ghost_check@),
            fail_views(failures@) == group_failures(groups@.subrange(0, g as int), *cands, ghost_check@),
            match ghost_check@ {
                KatCheck::Fields(fs) => fields matches Some(v) && v@.map_values(|s: String| s@) == fs,
                KatCheck::SigVer => fields is None,
            },
        decreases groups.len() - g,
    {
        let ghost cur = groups@.subrange(0, g + 1);
        assert(cur.drop_last() =~= groups@.subrange(0, g as int));
        assert(cur.last() == groups@[g as int]);
        let tg = &groups[g];
        match &tg.tests {
            Some(tests) => {
                let ghost before = summary_views(summaries@);
                let s = check_group(tg, tests, cands, fields, ghost_check, &mut failures);
                summaries.push(s);
                assert(summary_views(summaries@) =~= before.push((s.name@, s.total as int, s.passed as int, s.failed as int)));
            },
            None => {},
        }
        g = g + 1;
        assert(groups@.subrange(0, g as int) == cur);
    }
    assert(groups@.subrange(0, groups@.len() as int) =~= groups@);
    let overall = if failures.len() == 0 {
        owned("pass")
    } else {
        owned("fail")
    };
    Ok(
        KatResult {
            algorithm: owned(algorithm),
            parameter_set: owned(parameter_set),
            acvp_mode: owned(mode),
            vector_source: VectorSource { authority: owned("NIST-ACVP"), set_version },
            groups: summaries,
            overall,
            failures,
        },
    )
}

/// Compare the candidate outputs with the expected values of `fields`, per
/// test case, case-insensitively (keyGen, sigGen).
pub fn verify_fields(
    algorithm: &str,
    parameter_set: &str,
    mode: &str,
    vector_data: &VectorSet,
    fields: &Vec<String>,
    candidate_outputs: &CandidateOutputs,
) -> (r: Result<KatResult, (i32, String)>)
    ensures
        match r {
            Ok(k) => vector_data.test_groups is Some && kat_outcome(
                k,
                algorithm@,
                parameter_set@,
                mode@,
                *vector_data,
                *candidate_outputs,
                KatCheck::Fields(fields@.map_values(|s: String| s@)),
            ),
            Err(e) => vector_data.test_groups is None && e.0 == E_RULESET_INVALID,
        },
{
    check_set(
        algorithm,
        parameter_set,
        mode,
        vector_data,
        candidate_outputs,
        Some(fields),
        Ghost(KatCheck::Fields(fields@.map_values(|s: String| s@))),
    )
}

/// Compare the candidates' boolean `testPassed` with the expected verdict,
/// per test case (sigVer).
pub fn verify_sigver(
    algorithm: &str,
    parameter_set: &str,
    vector_data: &VectorSet,
    candidate_outputs: &CandidateOutputs,
) -> (r: Result<KatResult, (i32, String)>)
    ensures
        match r {
            Ok(k) => vector_data.test_groups is Some && kat_outcome(
                k,
                algorithm@,
                parameter_set@,
                "sigVer"@,
                *vector_data,
                *candidate_outputs,
                KatCheck::SigVer,
            ),
            Err(e) => vector_data.test_groups is None && e.0 == E_RULESET_INVALID,
        },
{
    check_set(algorithm, parameter_set, "sigVer", vector_data, candidate_outputs, None, Ghost(KatCheck::SigVer))
}

/// The ML-DSA parameter-set / mode pairs there are bundled vectors for.
pub open spec fn ml_dsa_supported(parameter_set: Seq<char>, mode: Seq<char>) -> bool {
    ||| (parameter_set == "ML-DSA-44"@ && mode == "keyGen"@)
    ||| (parameter_set == "ML-DSA-65"@ && mode == "sigGen"@)
    ||| (parameter_set == "ML-DSA-87"@ && mode == "sigVer"@)
}

fn names(items: Vec<&str>) -> (r: Vec<String>)
    ensures
        r@.map_values(|s: String| s@) == items@.map_values(|s: &str| s@),
{
    let mut r: Vec<String> = Vec::new();
    let mut i: usize = 0;
    while i < items.len()
        invariant
            i <= items@.len(),
            r@.map_values(|s: String| s@) == items@.map_values(|s: &str| s@).subrange(0, i as int),
        decreases items.len() - i,
    {
        let ghost prev = r@;
        r.push(owned(items[i]));
        assert(r@.map_values(|s: String| s@) =~= prev.map_values(|s: String| s@).push(items@[i as int]@));
        i = i + 1;
        assert(items@.map_values(|s: &str| s@).subrange(0, i as int) =~= items@.map_values(|s: &str| s@).subrange(0, i - 1).push(items@[i - 1]@));
    }
    assert(items@.map_values(|s: &str| s@).subrange(0, items@.len() as int) =~= items@.map_values(|s: &str| s@));
    r
}

/// The message an unsupported parameter-set / mode pair is refused with.
pub open spec fn unsupported_pair_message(parameter_set: Seq<char>, mode: Seq<char>) -> Seq<char> {
    "ML-DSA: unsupported parameter_set/mode \""@ + parameter_set + "/"@ + mode
        + "\". Supported: ML-DSA-44/keyGen, ML-DSA-65/sigGen, ML-DSA-87/sigVer"@
}

/// ML-DSA known-answer tests: keyGen compares `pk` and `sk` (ML-DSA-44),
/// sigGen compares `signature` (ML-DSA-65), sigVer compares `testPassed`
/// (ML-DSA-87), against the vector set the caller supplies for that pair.
/// Any other pair is refused, naming the pair; a supported pair succeeds
/// exactly when the vector set has its test groups.
pub fn run(parameter_set: &str, mode: &str, vectors: &VectorSet, candidate_outputs: &CandidateOutputs) -> (r: Result<
    KatResult,
    (i32, String),
>)
    ensures
        !ml_dsa_supported(parameter_set@, mode@) ==> (r matches Err(e) && e.0 == E_RULESET_INVALID
            && e.1@ == unsupported_pair_message(parameter_set@, mode@)),
        (parameter_set@ == "ML-DSA-44"@ && mode@ == "keyGen"@ && vectors.test_groups is Some) ==> (r matches Ok(k)
            && kat_outcome(k, "ML-DSA"@, parameter_set@, mode@, *vectors, *candidate_outputs, KatCheck::Fields(seq!["pk"@, "sk"@]))),
        (parameter_set@ == "ML-DSA-65"@ && mode@ == "sigGen"@ && vectors.test_groups is Some) ==> (r matches Ok(k)
            && kat_outcome(k, "ML-DSA"@, parameter_set@, mode@, *vectors, *candidate_outputs, KatCheck::Fields(seq!["signature"@]))),
        (parameter_set@ == "ML-DSA-87"@ && mode@ == "sigVer"@ && vectors.test_groups is Some) ==> (r matches Ok(k)
            && kat_outcome(k, "ML-DSA"@, parameter_set@, "sigVer"@, *vectors, *candidate_outputs, KatCheck::SigVer)),
        (ml_dsa_supported(parameter_set@, mode@) && vectors.test_groups is None) ==> (r matches Err(e) && e.0 == E_RULESET_INVALID),
{
    proof {
        reveal_strlit("ML-DSA-44");
        reveal_strlit("ML-DSA-65");
        reveal_strlit("ML-DSA-87");
        assert("ML-DSA-44"@[7] != "ML-DSA-65"@[7]);
        assert("ML-DSA-44"@[7] != "ML-DSA-87"@[7]);
        assert("ML-DSA-65"@[7] != "ML-DSA-87"@[7]);
    }
    if str_eq(parameter_set, "ML-DSA-44") && str_eq(mode, "keyGen") {
        let fields = names(vec!["pk", "sk"]);
        assert(fields@.map_values(|s: String| s@) =~= seq!["pk"@, "sk"@]);
        verify_fields("ML-DSA", parameter_set, mode, vectors, &fields, candidate_outputs)
    } else if str_eq(parameter_set, "ML-DSA-65") && str_eq(mode, "sigGen") {
        let fields = names(vec!["signature"]);
        assert(fields@.map_values(|s: String| s@) =~= seq!["signature"@]);
        verify_fields("ML-DSA", parameter_set, mode, vectors, &fields, candidate_outputs)
    } else if str_eq(parameter_set, "ML-DSA-87") && str_eq(mode, "sigVer") {
        verify_sigver("ML-DSA", parameter_set, vectors, candidate_outputs)
    } else {
        let mut msg = owned("ML-DSA: unsupported parameter_set/mode \"");
        msg.append(parameter_set);
        msg.append("/");
        msg.append(mode);
        msg.append("\". Supported: ML-DSA-44/keyGen, ML-DSA-65/sigGen, ML-DSA-87/sigVer");
        Err((E_RULESET_INVALID, msg))
    }
}

} // verus!
