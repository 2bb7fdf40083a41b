//! The content of a SARIF 2.1.0 run: one rule per distinct rule id in the
//! order the ids first occur, one result per finding pointing at its rule,
//! a fingerprint per result, and one notification per scan warning. The
//! JSON document itself is written around these values.
use vstd::prelude::*;
use vstd::string::*;
use sha2::Digest;
use crate::algorithms::{AlgorithmRecord, AlgorithmTable, QuantumStatus};
use crate::findings::{Finding, ScanWarning, Severity};
use crate::report::{sarif_level, severity_to_sarif};
use crate::text::{chars_of, owned, push_char, push_text, str_eq, string_from_chars, trim_chars, trim_ws};

verus! {

/// The `$schema` a SARIF document declares.
pub const SARIF_SCHEMA: &'static str = "https://docs.oasis-open.org/sarif/sarif/v2.1.0/cos02/schemas/sarif-schema-2.1.0.json";

/// The tool's information URI.
pub const TOOL_INFORMATION_URI: &'static str = "https://github.com/udsy19/seawall";

/// What SHA-256 gives for `data`.
pub uninterp spec fn sha256_digest(data: Seq<u8>) -> Seq<u8>;

/// SHA-256 of `data`, through sha2's `Sha256::digest`; the digest is 32
/// bytes long.
#[verifier::external_body]
fn sha256(data: &[u8]) -> (r: Vec<u8>)
    ensures
        r@ == sha256_digest(data@),
        r@.len() == 32,
{
    sha2::Sha256::digest(data).to_vec()
}

pub open spec fn hex_digit(n: nat) -> char {
    if n < 10 {
        (48 + n) as char
    } else {
        (87 + n) as char
    }
}

/// Lower-case hex, two digits per byte.
pub open spec fn hex_of(bytes: Seq<u8>) -> Seq<char>
    decreases bytes.len(),
{
    if bytes.len() == 0 {
        Seq::empty()
    } else {
        hex_of(bytes.drop_last()) + seq![
            hex_digit((bytes.last() / 16) as nat),
            hex_digit((bytes.last() % 16) as nat),
        ]
    }
}

/// The fingerprint of a result: the first 16 hex digits of the SHA-256 of
/// `ruleId:snippet`.
pub open spec fn fingerprint_spec(rule_id: Seq<char>, snippet: Seq<char>) -> Seq<char> {
    hex_of(sha256_digest(vstd::utf8::encode_utf8(rule_id.push(':') + snippet)).take(8))
}

fn hex_char(n: u8) -> (c: char)
    requires
        n < 16,
    ensures
        c == hex_digit(n as nat),
{
    if n < 10 {
        (48 + n) as char
    } else {
        (87 + n) as char
    }
}

/// The fingerprint of a result with rule `rule_id` and trimmed snippet
/// `snippet`.
pub fn fingerprint(rule_id: &str, snippet: &str) -> (r: String)
    ensures
        r@ == fingerprint_spec(rule_id@, snippet@),
{
    let mut input = owned(rule_id);
    push_char(&mut input, ':');
    push_text(&mut input, snippet);
    let digest = sha256(input.as_str().as_bytes());
    let mut out = String::new();
    let mut i: usize = 0;
    while i < 8
        invariant
            i <= 8,
            digest@.len() == 32,
            out@ == hex_of(digest@.take(i as int)),
        decreases 8 - i,
    {
        let b = digest[i];
        push_char(&mut out, hex_char(b / 16));
        push_char(&mut out, hex_char(b % 16));
        i = i + 1;
        assert(digest@.take(i as int).drop_last() =~= digest@.take(i - 1));
        assert(out@ =~= hex_of(digest@.take(i as int)));
    }
    out
}

/// The name of a quantum status, as the variant is spelled.
pub open spec fn status_name(q: QuantumStatus) -> Seq<char> {
    match q {
        QuantumStatus::BrokenClassically => "BrokenClassically"@,
        QuantumStatus::BrokenByShor => "BrokenByShor"@,
        QuantumStatus::WeakenedByGrover => "WeakenedByGrover"@,
        QuantumStatus::QuantumSafe => "QuantumSafe"@,
        QuantumStatus::PqcFinal => "PqcFinal"@,
        QuantumStatus::PqcDraft => "PqcDraft"@,
    }
}

/// The name of a quantum status, as the variant is spelled.
pub fn quantum_status_name(q: QuantumStatus) -> (r: &'static str)
    ensures
        r@ == status_name(q),
{
    match q {
        QuantumStatus::BrokenClassically => "BrokenClassically",
        QuantumStatus::BrokenByShor => "BrokenByShor",
        QuantumStatus::WeakenedByGrover => "WeakenedByGrover",
        QuantumStatus::QuantumSafe => "QuantumSafe",
        QuantumStatus::PqcFinal => "PqcFinal",
        QuantumStatus::PqcDraft => "PqcDraft",
    }
}

// ---------------------------------------------------------------------------
// The run's content.

/// One rule of the run.
pub struct SarifRule {
    pub id: String,
    pub short_description: String,
    pub full_description: String,
    pub level: &'static str,
    /// `None` for an unscored finding: the property is left out.
    pub security_severity: Option<&'static str>,
    pub algorithm_id: String,
    pub quantum_status: String,
}

/// One result of the run.
pub struct SarifResult {
    pub rule_id: String,
    pub rule_index: usize,
    pub level: &'static str,
    pub message: String,
    pub uri: String,
    pub start_line: u32,
    /// The trimmed snippet; empty when there is none.
    pub snippet: String,
    pub fingerprint: String,
    pub cbom_ref: String,
}

/// One tool-execution notification of the run.
pub struct SarifNotification {
    pub message: String,
    pub uri: Option<String>,
}

/// A SARIF run's content.
pub struct SarifRun {
    pub rules: Vec<SarifRule>,
    pub results: Vec<SarifResult>,
    pub notifications: Vec<SarifNotification>,
    pub automation_id: String,
}

pub struct RuleV {
    pub id: Seq<char>,
    pub short_description: Seq<char>,
    pub full_description: Seq<char>,
    pub level: Seq<char>,
    pub security_severity: Option<Seq<char>>,
    pub algorithm_id: Seq<char>,
    pub quantum_status: Seq<char>,
}

pub struct ResultV {
    pub rule_id: Seq<char>,
    pub rule_index: int,
    pub level: Seq<char>,
    pub message: Seq<char>,
    pub uri: Seq<char>,
    pub start_line: u32,
    pub snippet: Seq<char>,
    pub fingerprint: Seq<char>,
    pub cbom_ref: Seq<char>,
}

impl View for SarifRule {
    type V = RuleV;

    open spec fn view(&self) -> RuleV {
        RuleV {
            id: self.id@,
            short_description: self.short_description@,
            full_description: self.full_description@,
            level: self.level@,
            security_severity: match self.security_severity {
                Some(v) => Some(v@),
                None => None,
            },
            algorithm_id: self.algorithm_id@,
            quantum_status: self.quantum_status@,
        }
    }
}

impl View for SarifResult {
    type V = ResultV;

    open spec fn view(&self) -> ResultV {
        ResultV {
            rule_id: self.rule_id@,
            rule_index: self.rule_index as int,
            level: self.level@,
            message: self.message@,
            uri: self.uri@,
            start_line: self.start_line,
            snippet: self.snippet@,
            fingerprint: self.fingerprint@,
            cbom_ref: self.cbom_ref@,
        }
    }
}

/// A result's level and security-severity: from the finding's severity
/// when its algorithm is in the table and it is scored; an unscored
/// finding has level `none` and no security-severity.
pub open spec fn level_of(algo: Option<AlgorithmRecord>, sev: Option<Severity>) -> (Seq<char>, Option<Seq<char>>) {
    match (algo, sev) {
        (Some(_), Some(s)) => (sarif_level(s).0, Some(sarif_level(s).1)),
        _ => ("none"@, None),
    }
}

/// The rule a finding opens.
pub open spec fn rule_spec(f: Finding, algo: Option<AlgorithmRecord>, sev: Option<Severity>) -> RuleV {
    let display = match algo {
        Some(a) => a.display_name@,
        None => f.algorithm_id@,
    };
    RuleV {
        id: f.rule_id@,
        short_description: display + " finding"@,
        full_description: f.message@,
        level: level_of(algo, sev).0,
        security_severity: level_of(algo, sev).1,
        algorithm_id: f.algorithm_id@,
        quantum_status: match algo {
            Some(a) => status_name(a.quantum_status),
            None => Seq::empty(),
        },
    }
}

/// The distinct rule ids of the first `n` findings, in first-occurrence
/// order.
pub open spec fn distinct_rule_ids(fs: Seq<Finding>, n: int) -> Seq<Seq<char>>
    decreases n,
{
    if n <= 0 || n > fs.len() {
        Seq::empty()
    } else {
        let prev = distinct_rule_ids(fs, n - 1);
        if prev.contains(fs[n - 1].rule_id@) {
            prev
        } else {
            prev.push(fs[n - 1].rule_id@)
        }
    }
}

/// The rules of the first `n` findings: one per distinct rule id, from
/// the finding where it first occurs.
pub open spec fn rules_spec(fs: Seq<Finding>, sevs: Seq<Option<Severity>>, t: AlgorithmTable, n: int) -> Seq<RuleV>
    decreases n,
{
    if n <= 0 || n > fs.len() {
        Seq::empty()
    } else {
        let prev = rules_spec(fs, sevs, t, n - 1);
        if distinct_rule_ids(fs, n - 1).contains(fs[n - 1].rule_id@) {
            prev
        } else {
            prev.push(rule_spec(fs[n - 1], t.record(fs[n - 1].algorithm_id@), sevs[n - 1]))
        }
    }
}

/// The position of `id` in `ids`.
pub open spec fn position_of(ids: Seq<Seq<char>>, id: Seq<char>) -> int
    decreases ids.len(),
{
    if ids.len() == 0 {
        -1
    } else if ids.last() == id {
        ids.len() - 1
    } else {
        position_of(ids.drop_last(), id)
    }
}

pub open spec fn snippet_of(f: Finding) -> Seq<char> {
    trim_ws(
        match f.location.snippet {
            Some(s) => s@,
            None => Seq::empty(),
        },
    )
}

/// The result of finding `f`, whose rule sits at `index`.
pub open spec fn result_spec(f: Finding, algo: Option<AlgorithmRecord>, sev: Option<Severity>, index: int) -> ResultV {
    let oid_or_id = match algo {
        Some(a) => match a.oid {
            Some(o) => o@,
            None => f.algorithm_id@,
        },
        None => f.algorithm_id@,
    };
    ResultV {
        rule_id: f.rule_id@,
        rule_index: index,
        level: level_of(algo, sev).0,
        message: f.message@,
        uri: f.location.location@,
        start_line: match f.location.line {
            Some(l) => l,
            None => 1,
        },
        snippet: snippet_of(f),
        fingerprint: fingerprint_spec(f.rule_id@, snippet_of(f)),
        cbom_ref: "crypto/algorithm/"@ + f.algorithm_id@ + "@"@ + oid_or_id,
    }
}

proof fn lemma_rules_match_ids(fs: Seq<Finding>, sevs: Seq<Option<Severity>>, t: AlgorithmTable, n: int)
    requires
        0 <= n <= fs.len(),
    ensures
        rules_spec(fs, sevs, t, n).len() == distinct_rule_ids(fs, n).len(),
        forall|k: int| 0 <= k < distinct_rule_ids(fs, n).len() ==> #[trigger] rules_spec(fs, sevs, t, n)[k].id
            == distinct_rule_ids(fs, n)[k],
    decreases n,
{
    if n > 0 {
        lemma_rules_match_ids(fs, sevs, t, n - 1);
    }
}

fn level_for(algo: Option<&AlgorithmRecord>, sev: Option<Severity>) -> (r: (&'static str, Option<&'static str>))
    ensures
        (r.0@, match r.1 {
            Some(v) => Some(v@),
            None => None,
        }) == level_of(
            match algo {
                Some(a) => Some(*a),
                None => None,
            },
            sev,
        ),
{
    match (algo, sev) {
        (Some(_), Some(s)) => {
            let (level, security) = severity_to_sarif(s);
            (level, Some(security))
        },
        _ => ("none", None),
    }
}

fn position_in(ids: &Vec<String>, id: &str) -> (r: usize)
    ensures
        r as int == position_of(ids@.map_values(|s: String| s@), id@) || (position_of(
            ids@.map_values(|s: String| s@),
            id@,
        ) == -1 && r == 0),
{
    let ghost v = ids@.map_values(|s: String| s@);
    let mut i: usize = ids.len();
    assert(v.subrange(0, v.len() as int) =~= v);
    while i > 0
        invariant
            i <= ids@.len(),
            v == ids@.map_values(|s: String| s@),
            position_of(v, id@) == position_of(v.subrange(0, i as int), id@),
        decreases i,
    {
        let ghost pre = v.subrange(0, i as int);
        assert(pre.drop_last() =~= v.subrange(0, i - 1));
        if str_eq(ids[i - 1].as_str(), id) {
            return i - 1;
        }
        i = i - 1;
    }
    0
}

fn contains_id(ids: &Vec<String>, id: &str) -> (r: bool)
    ensures
        r == ids@.map_values(|s: String| s@).contains(id@),
{
    let ghost v = ids@.map_values(|s: String| s@);
    let mut i: usize = 0;
    while i < ids.len()
        invariant
            i <= ids@.len(),
            v == ids@.map_values(|s: String| s@),
            forall|j: int| 0 <= j < i ==> v[j] != id@,
        decreases ids.len() - i,
    {
        if str_eq(ids[i].as_str(), id) {
            assert(v[i as int] == id@);
            return true;
        }
        i = i + 1;
    }
    false
}

fn rule_for(f: &Finding, algo: Option<&AlgorithmRecord>, sev: Option<Severity>) -> (r: SarifRule)
    ensures
        r@ == rule_spec(
            *f,
            match algo {
                Some(a) => Some(*a),
                None => None,
            },
            sev,
        ),
{
    let display = match algo {
        Some(a) => a.display_name.clone(),
        None => f.algorithm_id.clone(),
    };
    let mut short = display;
    push_text(&mut short, " finding");
    let (level, security) = level_for(algo, sev);
    let status = match algo {
        Some(a) => owned(quantum_status_name(a.quantum_status)),
        None => String::new(),
    };
    SarifRule {
        id: f.rule_id.clone(),
        short_description: short,
        full_description: f.message.clone(),
        level,
        security_severity: security,
        algorithm_id: f.algorithm_id.clone(),
        quantum_status: status,
    }
}

fn result_for(f: &Finding, algo: Option<&AlgorithmRecord>, sev: Option<Severity>, index: usize) -> (r: SarifResult)
    ensures
        r@ == result_spec(
            *f,
            match algo {
                Some(a) => Some(*a),
                None => None,
            },
            sev,
            index as int,
        ),
{
    let (level, _) = level_for(algo, sev);
    let raw = match &f.location.snippet {
        Some(s) => chars_of(s.as_str()),
        None => Vec::new(),
    };
    let snippet = string_from_chars(&trim_chars(&raw));
    let fp = fingerprint(f.rule_id.as_str(), snippet.as_str());
    let mut cbom_ref = owned("crypto/algorithm/");
    push_text(&mut cbom_ref, f.algorithm_id.as_str());
    push_text(&mut cbom_ref, "@");
    match algo {
        Some(a) => match &a.oid {
            Some(o) => push_text(&mut cbom_ref, o.as_str()),
            None => push_text(&mut cbom_ref, f.algorithm_id.as_str()),
        },
        None => push_text(&mut cbom_ref, f.algorithm_id.as_str()),
    }
    let start_line = match f.location.line {
        Some(l) => l,
        None => 1,
    };
    SarifResult {
        rule_id: f.rule_id.clone(),
        rule_index: index,
        level,
        message: f.message.clone(),
        uri: f.location.location.clone(),
        start_line,
        snippet,
        fingerprint: fp,
        cbom_ref,
    }
}

pub open spec fn rule_views(v: Seq<SarifRule>) -> Seq<RuleV> {
    v.map_values(|r: SarifRule| r@)
}

pub open spec fn result_views(v: Seq<SarifResult>) -> Seq<ResultV> {
    v.map_values(|r: SarifResult| r@)
}

/// The content of the SARIF run for `findings`. `severities[i]` is the
/// risk engine's severity for finding `i`; `timestamp` names the run.
pub fn sarif_run(
    findings: &Vec<Finding>,
    severities: &Vec<Option<Severity>>,
    algorithms: &AlgorithmTable,
    warnings: &Vec<ScanWarning>,
    timestamp: &str,
) -> (r: SarifRun)
    requires
        severities@.len() == findings@.len(),
    ensures
        rule_views(r.rules@) == rules_spec(findings@, severities@, *algorithms, findings@.len() as int),
        r.results@.len() == findings@.len(),
        forall|i: int| 0 <= i < findings@.len() ==> #[trigger] r.results@[i]@ == result_spec(
            findings@[i],
            algorithms.record(findings@[i].algorithm_id@),
            severities@[i],
            position_of(distinct_rule_ids(findings@, findings@.len() as int), findings@[i].rule_id@),
        ),
        r.notifications@.len() == warnings@.len(),
        forall|i: int| 0 <= i < warnings@.len() ==> #[trigger] r.notifications@[i].message@ == warnings@[i].message@
            && r.notifications@[i].uri == warnings@[i].path,
        r.automation_id@ == "seawall/"@ + timestamp@,
{
    let ghost fs = findings@;
    let ghost n = fs.len() as int;
    let mut ids: Vec<String> = Vec::new();
    let mut rules: Vec<SarifRule> = Vec::new();
    let mut i: usize = 0;
    while i < findings.len()
        invariant
            fs == findings@,
            n == fs.len(),
            severities@.len() == fs.len(),
            i <= fs.len(),
            ids@.map_values(|s: String| s@) == distinct_rule_ids(fs, i as int),
            rule_views(rules@) == rules_spec(fs, severities@, *algorithms, i as int),
        decreases findings.len() - i,
    {
        let f = &findings[i];
        if !contains_id(&ids, f.rule_id.as_str()) {
            let rule = rule_for(f, algorithms.get(f.algorithm_id.as_str()), severities[i]);
            let ghost before_r = rules@;
            let ghost before_i = ids@;
            rules.push(rule);
            ids.push(f.rule_id.clone());
            assert(rule_views(rules@) =~= rule_views(before_r).push(rules@[rules@.len() - 1]@));
            assert(ids@.map_values(|s: String| s@) =~= before_i.map_values(|s: String| s@).push(f.rule_id@));
        }
        i = i + 1;
    }
    let mut results: Vec<SarifResult> = Vec::new();
    let mut j: usize = 0;
    while j < findings.len()
        invariant
            fs == findings@,
            severities@.len() == fs.len(),
            j <= fs.len(),
            ids@.map_values(|s: String| s@) == distinct_rule_ids(fs, fs.len() as int),
            results@.len() == j,
            forall|k: int| 0 <= k < j ==> #[trigger] results@[k]@ == result_spec(
                fs[k],
                algorithms.record(fs[k].algorithm_id@),
                severities@[k],
                position_of(distinct_rule_ids(fs, fs.len() as int), fs[k].rule_id@),
            ),
        decreases findings.len() - j,
    {
        let f = &findings[j];
        let index = position_in(&ids, f.rule_id.as_str());
        proof {
            lemma_seen_ids(fs, j as int);
        }
        let res = result_for(f, algorithms.get(f.algorithm_id.as_str()), severities[j], index);
        results.push(res);
        j = j + 1;
    }
    let mut notifications: Vec<SarifNotification> = Vec::new();
    let mut k: usize = 0;
    while k < warnings.len()
        invariant
            k <= warnings@.len(),
            notifications@.len() == k,
            forall|x: int| 0 <= x < k ==> #[trigger] notifications@[x].message@ == warnings@[x].message@
                && notifications@[x].uri == warnings@[x].path,
        decreases warnings.len() - k,
    {
        notifications.push(SarifNotification { message: warnings[k].message.clone(), uri: warnings[k].path.clone() });
        k = k + 1;
    }
    let mut automation_id = owned("seawall/");
    push_text(&mut automation_id, timestamp);
    SarifRun { rules, results, notifications, automation_id }
}

/// Every finding's rule id is among the distinct rule ids.
proof fn lemma_seen_ids(fs: Seq<Finding>, j: int)
    requires
        0 <= j < fs.len(),
    ensures
        position_of(distinct_rule_ids(fs, fs.len() as int), fs[j].rule_id@) >= 0,
{
    lemma_ids_grow(fs, j + 1, fs.len() as int, fs[j].rule_id@);
    lemma_position_found(distinct_rule_ids(fs, fs.len() as int), fs[j].rule_id@);
}

proof fn lemma_ids_grow(fs: Seq<Finding>, a: int, b: int, id: Seq<char>)
    requires
        1 <= a <= b <= fs.len(),
        id == fs[a - 1].rule_id@,
    ensures
        distinct_rule_ids(fs, b).contains(id),
    decreases b - a,
{
    if b > a {
        lemma_ids_grow(fs, a, b - 1, id);
        let prev = distinct_rule_ids(fs, b - 1);
        if !prev.contains(fs[b - 1].rule_id@) {
            let k = choose|k: int| 0 <= k < prev.len() && prev[k] == id;
            assert(prev.push(fs[b - 1].rule_id@)[k] == id);
        }
    } else {
        let prev = distinct_rule_ids(fs, a - 1);
        if !prev.contains(fs[a - 1].rule_id@) {
            assert(prev.push(fs[a - 1].rule_id@)[prev.len() as int] == id);
        }
    }
}

proof fn lemma_position_found(ids: Seq<Seq<char>>, id: Seq<char>)
    requires
        ids.contains(id),
    ensures
        0 <= position_of(ids, id) < ids.len(),
        ids[position_of(ids, id)] == id,
    decreases ids.len(),
{
    if ids.last() != id {
        let k = choose|k: int| 0 <= k < ids.len() && ids[k] == id;
        assert(ids.drop_last()[k] == id);
        lemma_position_found(ids.drop_last(), id);
        assert(ids.drop_last()[position_of(ids.drop_last(), id)] == ids[position_of(ids.drop_last(), id)]);
    }
}

/// The run's rules list each distinct rule id once, in order of first
/// occurrence.
pub proof fn lemma_rule_ids_distinct(fs: Seq<Finding>, sevs: Seq<Option<Severity>>, t: AlgorithmTable)
    ensures
        forall|a: int, b: int| 0 <= a < b < rules_spec(fs, sevs, t, fs.len() as int).len() ==> rules_spec(fs, sevs, t, fs.len() as int)[a].id
            != rules_spec(fs, sevs, t, fs.len() as int)[b].id,
{
    lemma_distinct_ids(fs, fs.len() as int);
    lemma_rules_match_ids(fs, sevs, t, fs.len() as int);
}

proof fn lemma_distinct_ids(fs: Seq<Finding>, n: int)
    requires
        0 <= n <= fs.len(),
    ensures
        forall|a: int, b: int| 0 <= a < b < distinct_rule_ids(fs, n).len() ==> distinct_rule_ids(fs, n)[a] != distinct_rule_ids(fs, n)[b],
    decreases n,
{
    if n > 0 {
        lemma_distinct_ids(fs, n - 1);
        let prev = distinct_rule_ids(fs, n - 1);
        if !prev.contains(fs[n - 1].rule_id@) {
            let cur = prev.push(fs[n - 1].rule_id@);
            assert forall|a: int, b: int| 0 <= a < b < cur.len() implies cur[a] != cur[b] by {
                if b == prev.len() {
                    if cur[a] == cur[b] {
                        assert(prev[a] == fs[n - 1].rule_id@);
                    }
                }
            }
        }
    }
}

/// Every result's rule index points at the rule entry of its own rule id.
pub proof fn lemma_result_points_at_its_rule(fs: Seq<Finding>, sevs: Seq<Option<Severity>>, t: AlgorithmTable, i: int)
    requires
        0 <= i < fs.len(),
    ensures
        ({
            let rules = rules_spec(fs, sevs, t, fs.len() as int);
            let k = position_of(distinct_rule_ids(fs, fs.len() as int), fs[i].rule_id@);
            0 <= k < rules.len() && rules[k].id == fs[i].rule_id@
        }),
{
    lemma_ids_grow(fs, i + 1, fs.len() as int, fs[i].rule_id@);
    lemma_position_found(distinct_rule_ids(fs, fs.len() as int), fs[i].rule_id@);
    lemma_rules_match_ids(fs, sevs, t, fs.len() as int);
}

} // verus!
