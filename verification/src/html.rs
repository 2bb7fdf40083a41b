//! The content of the HTML report: findings ordered by score, highest
//! first; the counts per severity band; the percentage bar; the HNDL
//! callouts; the risk-register rows; and at most twenty diagnostic rows.
//! The page itself is rendered around these values.
use vstd::prelude::*;
use crate::algorithms::{AlgorithmRecord, AlgorithmTable};
use crate::findings::{Finding, ScanWarning, Severity};
use crate::report::{file_line_str, file_line_text, warning_kind_label, warning_label, why_text, why_this_matters};

verus! {

/// How many diagnostic rows the report shows.
pub const DIAGNOSTIC_ROWS: usize = 20;

/// The risk engine's score of a finding: its total and band, or `None`
/// when the finding is unscored.
pub type Score = Option<(u8, Severity)>;

/// The key findings are ordered by: the score, an unscored finding
/// counting as zero.
pub open spec fn score_key(s: Option<(u8, Severity)>) -> int {
    match s {
        Some((total, _)) => total as int,
        None => 0,
    }
}

pub open spec fn band(s: Option<(u8, Severity)>) -> Option<Severity> {
    match s {
        Some((_, b)) => Some(b),
        None => None,
    }
}

/// `ord` lists `0..n` by descending key, equal keys in their original
/// order: what a stable sort by descending score gives.
pub open spec fn ordered_by_score(ord: Seq<usize>, scores: Seq<Option<(u8, Severity)>>) -> bool {
    &&& ord.len() == scores.len()
    &&& forall|a: int| 0 <= a < ord.len() ==> #[trigger] ord[a] < scores.len()
    &&& forall|a: int, b: int|
        0 <= a < b < ord.len() ==> score_key(scores[ord[a] as int]) > score_key(scores[ord[b] as int]) || (score_key(
            scores[ord[a] as int],
        ) == score_key(scores[ord[b] as int]) && ord[a] < ord[b])
}

/// The number of findings in band `b`.
pub open spec fn count_band(scores: Seq<Option<(u8, Severity)>>, b: Option<Severity>) -> nat
    decreases scores.len(),
{
    if scores.len() == 0 {
        0
    } else {
        count_band(scores.drop_last(), b) + if band(scores.last()) == b {
            1nat
        } else {
            0nat
        }
    }
}

/// The number of HNDL-critical findings.
pub open spec fn count_hndl(fs: Seq<Finding>) -> nat
    decreases fs.len(),
{
    if fs.len() == 0 {
        0
    } else {
        count_hndl(fs.drop_last()) + if fs.last().hndl_critical {
            1nat
        } else {
            0nat
        }
    }
}

/// `count` as a whole percentage of `total`, rounded down; 0 of nothing.
pub open spec fn percent(count: int, total: int) -> int {
    if total == 0 {
        0
    } else {
        (count * 100) / total
    }
}

/// The positions of `ord` whose finding is HNDL-critical, in order.
pub open spec fn hndl_order(ord: Seq<usize>, fs: Seq<Finding>) -> Seq<usize>
    decreases ord.len(),
{
    if ord.len() == 0 {
        Seq::empty()
    } else {
        let prev = hndl_order(ord.drop_last(), fs);
        if fs[ord.last() as int].hndl_critical {
            prev.push(ord.last())
        } else {
            prev
        }
    }
}

/// The name a finding's algorithm is shown under.
pub open spec fn display_of(f: Finding, t: AlgorithmTable) -> Seq<char> {
    match t.record(f.algorithm_id@) {
        Some(a) => a.display_name@,
        None => f.algorithm_id@,
    }
}

/// The record of a finding's recommended replacement.
pub open spec fn replacement_of(f: Finding, t: AlgorithmTable) -> Option<AlgorithmRecord> {
    match t.record(f.algorithm_id@) {
        Some(a) => match a.replacement {
            Some(r) => t.record(r@),
            None => None,
        },
        None => None,
    }
}

/// One HNDL callout.
pub struct HndlRow {
    pub rule_id: String,
    pub algorithm: String,
    pub file_line: String,
    pub message: String,
}

/// One row of the risk register.
pub struct RegisterRow {
    pub severity: Option<Severity>,
    pub rule_id: String,
    pub algorithm: String,
    pub file_line: String,
    pub message: String,
    pub replacement: String,
    pub why_this_matters: String,
}

/// One scan-diagnostic row.
pub struct DiagnosticRow {
    pub kind: &'static str,
    pub path: String,
    pub message: String,
}

/// The content of the HTML report.
pub struct ReportData {
    pub total_findings: usize,
    pub count_critical: usize,
    pub count_high: usize,
    pub count_medium: usize,
    pub count_low: usize,
    pub count_safe: usize,
    pub count_unscored: usize,
    pub count_hndl: usize,
    pub pct_vulnerable: u32,
    pub bar_critical_pct: u32,
    pub bar_high_pct: u32,
    pub bar_medium_pct: u32,
    pub bar_low_pct: u32,
    pub bar_safe_pct: u32,
    pub bar_unscored_pct: u32,
    /// The findings, by position, in register order.
    pub order: Vec<usize>,
    pub hndl_rows: Vec<HndlRow>,
    pub register_rows: Vec<RegisterRow>,
    pub diagnostic_rows: Vec<DiagnosticRow>,
    pub diagnostic_total: usize,
}

pub open spec fn hndl_row_is(r: HndlRow, f: Finding, t: AlgorithmTable) -> bool {
    &&& r.rule_id@ == f.rule_id@
    &&& r.algorithm@ == display_of(f, t)
    &&& r.file_line@ == file_line_text(f)
    &&& r.message@ == f.message@
}

pub open spec fn register_row_is(r: RegisterRow, f: Finding, s: Option<(u8, Severity)>, t: AlgorithmTable) -> bool {
    &&& r.severity == band(s)
    &&& r.rule_id@ == f.rule_id@
    &&& r.algorithm@ == display_of(f, t)
    &&& r.file_line@ == file_line_text(f)
    &&& r.message@ == f.message@
    &&& r.replacement@ == (match replacement_of(f, t) {
        Some(x) => x.display_name@,
        None => Seq::empty(),
    })
    &&& r.why_this_matters@ == why_text(t.record(f.algorithm_id@), replacement_of(f, t))
}

/// Order the findings by descending score, equal scores in their original
/// order.
pub fn order_by_score(scores: &Vec<Option<(u8, Severity)>>) -> (ord: Vec<usize>)
    ensures
        ordered_by_score(ord@, scores@),
{
    let ghost sc = scores@;
    let mut ord: Vec<usize> = Vec::new();
    let mut i: usize = 0;
    while i < scores.len()
        invariant
            sc == scores@,
            i <= sc.len(),
            ord@.len() == i,
            forall|a: int| 0 <= a < ord@.len() ==> #[trigger] ord@[a] < i,
            forall|a: int, b: int|
                0 <= a < b < ord@.len() ==> score_key(sc[ord@[a] as int]) > score_key(sc[ord@[b] as int]) || (
                score_key(sc[ord@[a] as int]) == score_key(sc[ord@[b] as int]) && ord@[a] < ord@[b]),
        decreases scores.len() - i,
    {
        let key: u8 = match scores[i] {
            Some((t, _)) => t,
            None => 0,
        };
        let mut p: usize = 0;
        while p < ord.len()
            invariant
                sc == scores@,
                i < sc.len(),
                key as int == score_key(sc[i as int]),
                p <= ord@.len(),
                forall|a: int| 0 <= a < ord@.len() ==> #[trigger] ord@[a] < i,
                forall|a: int| 0 <= a < p ==> score_key(sc[#[trigger] ord@[a] as int]) >= key,
            ensures
                p <= ord@.len(),
                forall|a: int| 0 <= a < p ==> score_key(sc[#[trigger] ord@[a] as int]) >= key,
                p < ord@.len() ==> score_key(sc[ord@[p as int] as int]) < key,
            decreases ord.len() - p,
        {
            let k: u8 = match scores[ord[p]] {
                Some((t, _)) => t,
                None => 0,
            };
            if k < key {
                break;
            }
            p = p + 1;
        }
        let ghost before = ord@;
        proof {
            if p < before.len() {
                assert(score_key(sc[before[p as int] as int]) < key);
            }
        }
        ord.insert(p, i);
        proof {
            assert(ord@ =~= before.insert(p as int, i));
            assert forall|a: int| 0 <= a < ord@.len() implies #[trigger] ord@[a] < i + 1 by {
                if a < p {
                    assert(ord@[a] == before[a]);
                } else if a > p {
                    assert(ord@[a] == before[a - 1]);
                }
            }
            assert forall|a: int, b: int| 0 <= a < b < ord@.len() implies score_key(sc[ord@[a] as int]) > score_key(
                sc[ord@[b] as int],
            ) || (score_key(sc[ord@[a] as int]) == score_key(sc[ord@[b] as int]) && ord@[a] < ord@[b]) by {
                if b < p {
                    assert(ord@[a] == before[a] && ord@[b] == before[b]);
                } else if b == p {
                    assert(ord@[a] == before[a]);
                    assert(score_key(sc[before[a] as int]) >= key);
                } else if a > p {
                    assert(ord@[a] == before[a - 1] && ord@[b] == before[b - 1]);
                } else if a == p {
                    assert(ord@[b] == before[b - 1]);
                    assert(score_key(sc[before[p as int] as int]) < key);
                    if b - 1 > p {
                        assert(score_key(sc[before[p as int] as int]) >= score_key(sc[before[b - 1] as int]));
                    }
                } else {
                    assert(ord@[a] == before[a] && ord@[b] == before[b - 1]);
                }
            }
        }
        i = i + 1;
    }
    ord
}

fn count_scores(scores: &Vec<Option<(u8, Severity)>>, b: Option<Severity>) -> (r: usize)
    ensures
        r as nat == count_band(scores@, b),
{
    let mut c: usize = 0;
    let mut i: usize = 0;
    while i < scores.len()
        invariant
            i <= scores@.len(),
            c as nat == count_band(scores@.subrange(0, i as int), b),
            c <= i,
        decreases scores.len() - i,
    {
        assert(scores@.subrange(0, i + 1).drop_last() =~= scores@.subrange(0, i as int));
        let matches = match (scores[i], b) {
            (Some((_, x)), Some(y)) => x == y,
            (None, None) => true,
            _ => false,
        };
        if matches {
            c = c + 1;
        }
        i = i + 1;
    }
    assert(scores@.subrange(0, scores@.len() as int) =~= scores@);
    c
}

fn count_hndl_findings(fs: &Vec<Finding>) -> (r: usize)
    ensures
        r as nat == count_hndl(fs@),
{
    let mut c: usize = 0;
    let mut i: usize = 0;
    while i < fs.len()
        invariant
            i <= fs@.len(),
            c as nat == count_hndl(fs@.subrange(0, i as int)),
            c <= i,
        decreases fs.len() - i,
    {
        assert(fs@.subrange(0, i + 1).drop_last() =~= fs@.subrange(0, i as int));
        if fs[i].hndl_critical {
            c = c + 1;
        }
        i = i + 1;
    }
    assert(fs@.subrange(0, fs@.len() as int) =~= fs@);
    c
}

proof fn lemma_count_band_le(scores: Seq<Option<(u8, Severity)>>, b: Option<Severity>)
    ensures
        count_band(scores, b) <= scores.len(),
    decreases scores.len(),
{
    if scores.len() > 0 {
        lemma_count_band_le(scores.drop_last(), b);
    }
}

fn pct(count: usize, total: usize) -> (r: u32)
    requires
        count <= total,
    ensures
        r as int == percent(count as int, total as int),
        r <= 100,
{
    if total == 0 {
        0
    } else {
        let num: u128 = (count as u128) * 100;
        let den: u128 = total as u128;
        let x: u128 = num / den;
        assert(x <= 100) by (nonlinear_arith)
            requires
                x == num / den,
                num == count * 100,
                den == total,
                count <= total,
                total > 0,
        ;
        x as u32
    }
}

fn display_name(f: &Finding, t: &AlgorithmTable) -> (r: String)
    ensures
        r@ == display_of(*f, *t),
{
    match t.get(f.algorithm_id.as_str()) {
        Some(a) => a.display_name.clone(),
        None => f.algorithm_id.clone(),
    }
}

fn replacement_record<'a>(f: &Finding, t: &'a AlgorithmTable) -> (r: Option<&'a AlgorithmRecord>)
    ensures
        match r {
            Some(x) => replacement_of(*f, *t) == Some(*x),
            None => replacement_of(*f, *t) is None,
        },
{
    match t.get(f.algorithm_id.as_str()) {
        Some(a) => match &a.replacement {
            Some(id) => t.get(id.as_str()),
            None => None,
        },
        None => None,
    }
}

fn register_row(f: &Finding, s: Option<(u8, Severity)>, t: &AlgorithmTable) -> (r: RegisterRow)
    ensures
        register_row_is(r, *f, s, *t),
{
    let algo = t.get(f.algorithm_id.as_str());
    let repl = replacement_record(f, t);
    let replacement = match repl {
        Some(x) => x.display_name.clone(),
        None => String::new(),
    };
    RegisterRow {
        severity: match s {
            Some((_, b)) => Some(b),
            None => None,
        },
        rule_id: f.rule_id.clone(),
        algorithm: display_name(f, t),
        file_line: file_line_str(f),
        message: f.message.clone(),
        replacement,
        why_this_matters: why_this_matters(algo, repl),
    }
}

/// The content of the HTML report for `findings`, whose scores are
/// `scores`, with the scan's `warnings`.
pub fn report_data(
    findings: &Vec<Finding>,
    scores: &Vec<Option<(u8, Severity)>>,
    algorithms: &AlgorithmTable,
    warnings: &Vec<ScanWarning>,
) -> (r: ReportData)
    requires
        scores@.len() == findings@.len(),
    ensures
        r.total_findings == findings@.len(),
        r.count_critical == count_band(scores@, Some(Severity::Critical)),
        r.count_high == count_band(scores@, Some(Severity::High)),
        r.count_medium == count_band(scores@, Some(Severity::Medium)),
        r.count_low == count_band(scores@, Some(Severity::Low)),
        r.count_safe == count_band(scores@, Some(Severity::Safe)),
        r.count_unscored == count_band(scores@, None),
        r.count_hndl == count_hndl(findings@),
        r.pct_vulnerable == percent(r.count_critical + r.count_high, r.total_findings as int),
        r.bar_critical_pct == percent(r.count_critical as int, r.total_findings as int),
        r.bar_high_pct == percent(r.count_high as int, r.total_findings as int),
        r.bar_medium_pct == percent(r.count_medium as int, r.total_findings as int),
        r.bar_low_pct == percent(r.count_low as int, r.total_findings as int),
        r.bar_safe_pct == percent(r.count_safe as int, r.total_findings as int),
        r.bar_unscored_pct == (if r.bar_critical_pct + r.bar_high_pct + r.bar_medium_pct + r.bar_low_pct + r.bar_safe_pct
            >= 100 {
            0
        } else {
            100 - (r.bar_critical_pct + r.bar_high_pct + r.bar_medium_pct + r.bar_low_pct + r.bar_safe_pct)
        }),
        ordered_by_score(r.order@, scores@),
        r.register_rows@.len() == findings@.len(),
        forall|k: int| 0 <= k < findings@.len() ==> #[trigger] register_row_is(
            r.register_rows@[k],
            findings@[r.order@[k] as int],
            scores@[r.order@[k] as int],
            *algorithms,
        ),
        r.hndl_rows@.len() == hndl_order(r.order@, findings@).len(),
        forall|k: int| 0 <= k < r.hndl_rows@.len() ==> #[trigger] hndl_row_is(
            r.hndl_rows@[k],
            findings@[hndl_order(r.order@, findings@)[k] as int],
            *algorithms,
        ),
        r.diagnostic_total == warnings@.len(),
        r.diagnostic_rows@.len() == (if warnings@.len() < DIAGNOSTIC_ROWS { warnings@.len() } else { DIAGNOSTIC_ROWS as nat }),
        forall|k: int| 0 <= k < r.diagnostic_rows@.len() ==> {
            &&& (#[trigger] r.diagnostic_rows@[k]).kind@ == warning_label(warnings@[k].kind)
            &&& r.diagnostic_rows@[k].path@ == (match warnings@[k].path {
                Some(p) => p@,
                None => Seq::empty(),
            })
            &&& r.diagnostic_rows@[k].message@ == warnings@[k].message@
        },
{
    let ghost fs = findings@;
    let ghost sc = scores@;
    let order = order_by_score(scores);
    let total = findings.len();
    let count_critical = count_scores(scores, Some(Severity::Critical));
    let count_high = count_scores(scores, Some(Severity::High));
    let count_medium = count_scores(scores, Some(Severity::Medium));
    let count_low = count_scores(scores, Some(Severity::Low));
    let count_safe = count_scores(scores, Some(Severity::Safe));
    let count_unscored = count_scores(scores, None);
    let hndl = count_hndl_findings(findings);
    proof {
        lemma_band_split(sc);
    }
    let pct_vulnerable = pct(count_critical + count_high, total);
    let c = pct(count_critical, total);
    let h = pct(count_high, total);
    let m = pct(count_medium, total);
    let l = pct(count_low, total);
    let s = pct(count_safe, total);
    let sum = c + h + m + l + s;
    let u: u32 = if sum >= 100 {
        0
    } else {
        100 - sum
    };
    let mut register_rows: Vec<RegisterRow> = Vec::new();
    let mut hndl_rows: Vec<HndlRow> = Vec::new();
    let mut k: usize = 0;
    while k < order.len()
        invariant
            fs == findings@,
            sc == scores@,
            sc.len() == fs.len(),
            ordered_by_score(order@, sc),
            k <= order@.len(),
            register_rows@.len() == k,
            forall|x: int| 0 <= x < k ==> #[trigger] register_row_is(
                register_rows@[x],
                fs[order@[x] as int],
                sc[order@[x] as int],
                *algorithms,
            ),
            hndl_rows@.len() == hndl_order(order@.subrange(0, k as int), fs).len(),
            forall|x: int| 0 <= x < hndl_rows@.len() ==> #[trigger] hndl_row_is(
                hndl_rows@[x],
                fs[hndl_order(order@.subrange(0, k as int), fs)[x] as int],
                *algorithms,
            ),
        decreases order.len() - k,
    {
        let i = order[k];
        let f = &findings[i];
        register_rows.push(register_row(f, scores[i], algorithms));
        let ghost prev = hndl_order(order@.subrange(0, k as int), fs);
        assert(order@.subrange(0, k + 1).drop_last() =~= order@.subrange(0, k as int));
        if f.hndl_critical {
            hndl_rows.push(
                HndlRow {
                    rule_id: f.rule_id.clone(),
                    algorithm: display_name(f, algorithms),
                    file_line: file_line_str(f),
                    message: f.message.clone(),
                },
            );
        }
        k = k + 1;
    }
    assert(order@.subrange(0, order@.len() as int) =~= order@);
    let mut diagnostic_rows: Vec<DiagnosticRow> = Vec::new();
    let mut j: usize = 0;
    while j < warnings.len() && j < DIAGNOSTIC_ROWS
        invariant
            j <= warnings@.len(),
            j <= DIAGNOSTIC_ROWS,
            diagnostic_rows@.len() == j,
            forall|x: int| 0 <= x < j ==> {
                &&& (#[trigger] diagnostic_rows@[x]).kind@ == warning_label(warnings@[x].kind)
                &&& diagnostic_rows@[x].path@ == (match warnings@[x].path {
                    Some(p) => p@,
                    None => Seq::empty(),
                })
                &&& diagnostic_rows@[x].message@ == warnings@[x].message@
            },
        decreases warnings.len() - j,
    {
        let w = &warnings[j];
        diagnostic_rows.push(
            DiagnosticRow {
                kind: warning_kind_label(&w.kind),
                path: match &w.path {
                    Some(p) => p.clone(),
                    None => String::new(),
                },
                message: w.message.clone(),
            },
        );
        j = j + 1;
    }
    ReportData {
        total_findings: total,
        count_critical,
        count_high,
        count_medium,
        count_low,
        count_safe,
        count_unscored,
        count_hndl: hndl,
        pct_vulnerable,
        bar_critical_pct: c,
        bar_high_pct: h,
        bar_medium_pct: m,
        bar_low_pct: l,
        bar_safe_pct: s,
        bar_unscored_pct: u,
        order,
        hndl_rows,
        register_rows,
        diagnostic_rows,
        diagnostic_total: warnings.len(),
    }
}

/// Every finding falls in exactly one severity band or is unscored, so
/// the six counts add up to the number of findings.
pub proof fn lemma_band_split(scores: Seq<Option<(u8, Severity)>>)
    ensures
        count_band(scores, Some(Severity::Critical)) + count_band(scores, Some(Severity::High)) <= scores.len(),
        count_band(scores, Some(Severity::Critical)) + count_band(scores, Some(Severity::High))
            + count_band(scores, Some(Severity::Medium)) + count_band(scores, Some(Severity::Low))
            + count_band(scores, Some(Severity::Safe)) + count_band(scores, None) == scores.len(),
    decreases scores.len(),
{
    if scores.len() > 0 {
        lemma_band_split(scores.drop_last());
    }
}

} // verus!
