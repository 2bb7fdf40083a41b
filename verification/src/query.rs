//! Filtering stored findings by algorithm, rule, severity and HNDL flag.
use vstd::prelude::*;
use crate::findings::{Finding, Severity};
use crate::surface::{chars_lt, lemma_seq_lt_total, lemma_seq_lt_trans, seq_lt};
use crate::text::{chars_of, owned, str_eq};

verus! {

/// A findings filter; each field that is set must hold.
#[derive(Debug, Clone)]
pub struct FindingFilter {
    /// Exact algorithm-id.
    pub algorithm_id: Option<String>,
    /// Exact rule id.
    pub rule_id: Option<String>,
    /// Severity name: `Critical`, `High`, `Medium`, `Low`, anything else
    /// meaning `Safe`.
    pub severity: Option<String>,
    /// HNDL flag.
    pub hndl_critical: Option<bool>,
}

/// The severity a filter's severity name selects.
pub open spec fn severity_named(s: Seq<char>) -> Severity {
    if s == "Critical"@ {
        Severity::Critical
    } else if s == "High"@ {
        Severity::High
    } else if s == "Medium"@ {
        Severity::Medium
    } else if s == "Low"@ {
        Severity::Low
    } else {
        Severity::Safe
    }
}

/// The name a severity goes by: its variant name.
pub open spec fn severity_title(s: Severity) -> Seq<char> {
    match s {
        Severity::Critical => "Critical"@,
        Severity::High => "High"@,
        Severity::Medium => "Medium"@,
        Severity::Low => "Low"@,
        Severity::Safe => "Safe"@,
    }
}

/// Each severity's own name selects that severity, and two different
/// names of severities select different severities: a `High` filter keeps
/// exactly the findings scored `High`.
pub proof fn lemma_severity_names_select_their_severity(s: Severity, t: Severity)
    ensures
        severity_named(severity_title(s)) == s,
        severity_title(s) != severity_title(t) ==> severity_named(severity_title(s)) != severity_named(severity_title(t)),
{
    reveal_strlit("Critical");
    reveal_strlit("High");
    reveal_strlit("Medium");
    reveal_strlit("Low");
    reveal_strlit("Safe");
    assert("Critical"@.len() == 8);
    assert("Critical"@[0] == 'C');
    assert("Critical"@[1] == 'r');
    assert("Critical"@[2] == 'i');
    assert("Critical"@[3] == 't');
    assert("Critical"@[4] == 'i');
    assert("Critical"@[5] == 'c');
    assert("Critical"@[6] == 'a');
    assert("Critical"@[7] == 'l');
    assert("High"@.len() == 4);
    assert("High"@[0] == 'H');
    assert("High"@[1] == 'i');
    assert("High"@[2] == 'g');
    assert("High"@[3] == 'h');
    assert("Medium"@.len() == 6);
    assert("Medium"@[0] == 'M');
    assert("Medium"@[1] == 'e');
    assert("Medium"@[2] == 'd');
    assert("Medium"@[3] == 'i');
    assert("Medium"@[4] == 'u');
    assert("Medium"@[5] == 'm');
    assert("Low"@.len() == 3);
    assert("Low"@[0] == 'L');
    assert("Low"@[1] == 'o');
    assert("Low"@[2] == 'w');
    assert("Safe"@.len() == 4);
    assert("Safe"@[0] == 'S');
    assert("Safe"@[1] == 'a');
    assert("Safe"@[2] == 'f');
    assert("Safe"@[3] == 'e');
}

/// A finding scored `s` passes a severity-only filter naming `t` exactly
/// when `s` is `t`.
pub proof fn lemma_severity_filter_keeps_its_own(f: Finding, s: Severity, t: Severity, flt: FindingFilter)
    requires
        flt.algorithm_id is None,
        flt.rule_id is None,
        flt.hndl_critical is None,
        flt.severity matches Some(n) && n@ == severity_title(t),
    ensures
        passes_filter(f, Some(flt), Some(s)) <==> s == t,
{
    lemma_severity_names_select_their_severity(t, t);
}

/// A name that is not one of the four scored severities selects `Safe`,
/// and an unscored finding passes no severity filter.
pub proof fn lemma_other_names_and_unscored(n: Seq<char>, f: Finding, flt: FindingFilter)
    ensures
        (forall|s: Severity| s != Severity::Safe ==> n != #[trigger] severity_title(s)) ==> severity_named(n) == Severity::Safe,
        flt.severity is Some ==> !passes_filter(f, Some(flt), None),
{
    if forall|s: Severity| s != Severity::Safe ==> n != #[trigger] severity_title(s) {
        assert(n != severity_title(Severity::Critical));
        assert(n != severity_title(Severity::High));
        assert(n != severity_title(Severity::Medium));
        assert(n != severity_title(Severity::Low));
    }
}

/// The severity a filter's severity name selects.
pub fn parse_severity(s: &str) -> (r: Severity)
    ensures
        r == severity_named(s@),
{
    if str_eq(s, "Critical") {
        Severity::Critical
    } else if str_eq(s, "High") {
        Severity::High
    } else if str_eq(s, "Medium") {
        Severity::Medium
    } else if str_eq(s, "Low") {
        Severity::Low
    } else {
        Severity::Safe
    }
}

/// A finding passes a filter, given the severity it scores (`None` when it
/// is unscored, which matches no severity filter).
pub open spec fn passes_filter(f: Finding, filter: Option<FindingFilter>, severity: Option<Severity>) -> bool {
    match filter {
        None => true,
        Some(flt) => {
            &&& (flt.algorithm_id matches Some(a) ==> f.algorithm_id@ == a@)
            &&& (flt.rule_id matches Some(r) ==> f.rule_id@ == r@)
            &&& (flt.severity matches Some(s) ==> severity == Some(severity_named(s@)))
            &&& (flt.hndl_critical matches Some(h) ==> f.hndl_critical == h)
        },
    }
}

/// Does `finding`, scoring `severity`, pass `filter`?
pub fn apply_filter(finding: &Finding, filter: Option<&FindingFilter>, severity: Option<Severity>) -> (r: bool)
    ensures
        r == passes_filter(
            *finding,
            match filter {
                Some(x) => Some(*x),
                None => None,
            },
            severity,
        ),
{
    let filter = match filter {
        None => {
            return true;
        },
        Some(f) => f,
    };
    match &filter.algorithm_id {
        Some(a) => {
            if !str_eq(finding.algorithm_id.as_str(), a.as_str()) {
                return false;
            }
        },
        None => {},
    }
    match &filter.rule_id {
        Some(r) => {
            if !str_eq(finding.rule_id.as_str(), r.as_str()) {
                return false;
            }
        },
        None => {},
    }
    match &filter.severity {
        Some(s) => {
            let target = parse_severity(s.as_str());
            match severity {
                Some(actual) => {
                    if actual != target {
                        return false;
                    }
                },
                None => {
                    return false;
                },
            }
        },
        None => {},
    }
    match filter.hndl_critical {
        Some(h) => {
            if finding.hndl_critical != h {
                return false;
            }
        },
        None => {},
    }
    true
}

// ---------------------------------------------------------------------------
// Selecting, ordering and grouping stored findings.

pub open spec fn opt_filter(filter: Option<&FindingFilter>) -> Option<FindingFilter> {
    match filter {
        Some(x) => Some(*x),
        None => None,
    }
}

/// The positions of the first `n` findings that pass the filter, in order.
pub open spec fn passing(
    fs: Seq<Finding>,
    sevs: Seq<Option<Severity>>,
    filter: Option<FindingFilter>,
    n: int,
) -> Seq<usize>
    decreases n,
{
    if n <= 0 {
        Seq::empty()
    } else {
        let prev = passing(fs, sevs, filter, n - 1);
        if passes_filter(fs[n - 1], filter, sevs[n - 1]) {
            prev.push((n - 1) as usize)
        } else {
            prev
        }
    }
}

/// The value a finding is sorted or grouped by: its rule id, its
/// algorithm-id, or `unknown` for any other field name.
pub open spec fn field_key(f: Finding, field: Seq<char>) -> Seq<char> {
    if field == "algorithmId"@ {
        f.algorithm_id@
    } else if field == "ruleId"@ {
        f.rule_id@
    } else {
        "unknown"@
    }
}

/// `sel` holds the positions of `p`, ordered by `field`, equal values in
/// their original order: what a stable sort gives.
pub open spec fn stably_sorted(sel: Seq<usize>, p: Seq<usize>, fs: Seq<Finding>, field: Seq<char>) -> bool {
    &&& sel.len() == p.len()
    &&& forall|a: int| 0 <= a < sel.len() ==> p.contains(#[trigger] sel[a])
    &&& forall|a: int, b: int|
        0 <= a < b < sel.len() ==> seq_lt(field_key(fs[sel[a] as int], field), field_key(fs[sel[b] as int], field))
            || (field_key(fs[sel[a] as int], field) == field_key(fs[sel[b] as int], field) && sel[a] < sel[b])
}

/// The first position of the group keyed `key`, or -1.
pub open spec fn group_index(groups: Seq<(Seq<char>, Seq<usize>)>, key: Seq<char>) -> int
    decreases groups.len(),
{
    if groups.len() == 0 {
        -1
    } else if groups.last().0 == key {
        groups.len() - 1
    } else {
        group_index(groups.drop_last(), key)
    }
}

/// The findings `sel` grouped by `field`: one group per value in order of
/// first appearance, each holding its findings in `sel` order.
pub open spec fn groups_of(sel: Seq<usize>, fs: Seq<Finding>, field: Seq<char>) -> Seq<(Seq<char>, Seq<usize>)>
    decreases sel.len(),
{
    if sel.len() == 0 {
        Seq::empty()
    } else {
        let prev = groups_of(sel.drop_last(), fs, field);
        let key = field_key(fs[sel.last() as int], field);
        let g = group_index(prev, key);
        if g < 0 {
            prev.push((key, seq![sel.last()]))
        } else {
            prev.update(g, (key, prev[g].1.push(sel.last())))
        }
    }
}

/// What a findings query returns: the selected findings by position, in
/// output order, and their groups when the query groups them.
pub struct QueryResult {
    pub selected: Vec<usize>,
    pub groups: Option<Vec<(String, Vec<usize>)>>,
}

pub open spec fn groups_view(g: Seq<(String, Vec<usize>)>) -> Seq<(Seq<char>, Seq<usize>)> {
    g.map_values(|e: (String, Vec<usize>)| (e.0@, e.1@))
}

proof fn lemma_passing_bounds(fs: Seq<Finding>, sevs: Seq<Option<Severity>>, filter: Option<FindingFilter>, n: int)
    requires
        0 <= n <= usize::MAX,
    ensures
        forall|a: int| 0 <= a < passing(fs, sevs, filter, n).len() ==> #[trigger] passing(fs, sevs, filter, n)[a] < n,
        forall|a: int, b: int|
            0 <= a < b < passing(fs, sevs, filter, n).len() ==> passing(fs, sevs, filter, n)[a] < passing(
                fs,
                sevs,
                filter,
                n,
            )[b],
    decreases n,
{
    if n > 0 {
        lemma_passing_bounds(fs, sevs, filter, n - 1);
        let prev = passing(fs, sevs, filter, n - 1);
        assert(((n - 1) as usize) as int == n - 1);
        if passes_filter(fs[n - 1], filter, sevs[n - 1]) {
            assert(passing(fs, sevs, filter, n) == prev.push((n - 1) as usize));
        } else {
            assert(passing(fs, sevs, filter, n) == prev);
        }
    }
}

fn key_chars(f: &Finding, field: &str) -> (r: Vec<char>)
    ensures
        r@ == field_key(*f, field@),
{
    if str_eq(field, "algorithmId") {
        chars_of(f.algorithm_id.as_str())
    } else if str_eq(field, "ruleId") {
        chars_of(f.rule_id.as_str())
    } else {
        chars_of("unknown")
    }
}

/// Sort the positions `p`, which increase, stably by `field`.
fn stable_sort(p: &Vec<usize>, fs: &Vec<Finding>, field: &str) -> (sel: Vec<usize>)
    requires
        forall|a: int| 0 <= a < p@.len() ==> #[trigger] p@[a] < fs@.len(),
        forall|a: int, b: int| 0 <= a < b < p@.len() ==> p@[a] < p@[b],
    ensures
        stably_sorted(sel@, p@, fs@, field@),
{
    let ghost key = |i: usize| field_key(fs@[i as int], field@);
    let mut sel: Vec<usize> = Vec::new();
    let mut i: usize = 0;
    while i < p.len()
        invariant
            forall|a: int| 0 <= a < p@.len() ==> #[trigger] p@[a] < fs@.len(),
            forall|a: int, b: int| 0 <= a < b < p@.len() ==> p@[a] < p@[b],
            i <= p@.len(),
            sel@.len() == i,
            forall|a: int| 0 <= a < sel@.len() ==> p@.subrange(0, i as int).contains(#[trigger] sel@[a]),
            forall|a: int, b: int|
                0 <= a < b < sel@.len() ==> seq_lt(field_key(fs@[sel@[a] as int], field@), field_key(fs@[sel@[b] as int], field@))
                    || (field_key(fs@[sel@[a] as int], field@) == field_key(fs@[sel@[b] as int], field@) && sel@[a]
                    < sel@[b]),
        decreases p.len() - i,
    {
        let x = p[i];
        let kx = key_chars(&fs[x], field);
        let mut q: usize = 0;
        while q < sel.len()
            invariant
                q <= sel@.len(),
                x < fs@.len(),
                kx@ == field_key(fs@[x as int], field@),
                forall|a: int| 0 <= a < sel@.len() ==> sel@[a] < fs@.len(),
                forall|a: int| 0 <= a < q ==> !seq_lt(kx@, field_key(fs@[#[trigger] sel@[a] as int], field@)),
            ensures
                q <= sel@.len(),
                forall|a: int| 0 <= a < q ==> !seq_lt(kx@, field_key(fs@[#[trigger] sel@[a] as int], field@)),
                q < sel@.len() ==> seq_lt(kx@, field_key(fs@[sel@[q as int] as int], field@)),
            decreases sel.len() - q,
        {
            let kq = key_chars(&fs[sel[q]], field);
            if chars_lt(&kx, &kq) {
                break;
            }
            q = q + 1;
        }
        let ghost before = sel@;
        let ghost pre = p@.subrange(0, i as int);
        proof {
            assert forall|a: int| 0 <= a < before.len() implies before[a] < x by {
                let w = choose|w: int| 0 <= w < pre.len() && pre[w] == before[a];
                assert(p@[w] < p@[i as int]);
            }
        }
        sel.insert(q, x);
        proof {
            assert(sel@ =~= before.insert(q as int, x));
            let pre1 = p@.subrange(0, i + 1);
            assert(pre1[i as int] == x);
            assert forall|a: int| 0 <= a < sel@.len() implies pre1.contains(#[trigger] sel@[a]) by {
                if a < q {
                    assert(sel@[a] == before[a]);
                    let w = choose|w: int| 0 <= w < pre.len() && pre[w] == before[a];
                    assert(pre1[w] == pre[w]);
                } else if a > q {
                    assert(sel@[a] == before[a - 1]);
                    let w = choose|w: int| 0 <= w < pre.len() && pre[w] == before[a - 1];
                    assert(pre1[w] == pre[w]);
                } else {
                    assert(sel@[a] == x);
                }
            }
            assert forall|a: int, b: int| 0 <= a < b < sel@.len() implies seq_lt(
                field_key(fs@[sel@[a] as int], field@),
                field_key(fs@[sel@[b] as int], field@),
            ) || (field_key(fs@[sel@[a] as int], field@) == field_key(fs@[sel@[b] as int], field@) && sel@[a]
                < sel@[b]) by {
                if b < q {
                    assert(sel@[a] == before[a] && sel@[b] == before[b]);
                } else if b == q {
                    assert(sel@[a] == before[a]);
                    lemma_seq_lt_total(kx@, field_key(fs@[before[a] as int], field@));
                } else if a > q {
                    assert(sel@[a] == before[a - 1] && sel@[b] == before[b - 1]);
                } else if a == q {
                    assert(sel@[b] == before[b - 1]);
                    let kq = field_key(fs@[before[q as int] as int], field@);
                    let kb = field_key(fs@[before[b - 1] as int], field@);
                    if b - 1 > q {
                        if seq_lt(kq, kb) {
                            lemma_seq_lt_trans(kx@, kq, kb);
                        }
                    }
                } else {
                    assert(sel@[a] == before[a] && sel@[b] == before[b - 1]);
                }
            }
        }
        i = i + 1;
    }
    assert(p@.subrange(0, p@.len() as int) =~= p@);
    sel
}

proof fn lemma_group_index_key(groups: Seq<(Seq<char>, Seq<usize>)>, key: Seq<char>)
    ensures
        -1 <= group_index(groups, key) < groups.len(),
        group_index(groups, key) >= 0 ==> groups[group_index(groups, key)].0 == key,
    decreases groups.len(),
{
    if groups.len() > 0 && groups.last().0 != key {
        lemma_group_index_key(groups.drop_last(), key);
    }
}

fn find_group(groups: &Vec<(String, Vec<usize>)>, key: &str) -> (r: Option<usize>)
    ensures
        match r {
            Some(g) => group_index(groups_view(groups@), key@) == g as int && g < groups@.len(),
            None => group_index(groups_view(groups@), key@) == -1,
        },
{
    let ghost v = groups_view(groups@);
    let mut i: usize = groups.len();
    assert(v.subrange(0, v.len() as int) =~= v);
    while i > 0
        invariant
            i <= groups@.len(),
            v == groups_view(groups@),
            group_index(v, key@) == group_index(v.subrange(0, i as int), key@),
        decreases i,
    {
        let ghost pre = v.subrange(0, i as int);
        assert(pre.drop_last() =~= v.subrange(0, i - 1));
        if str_eq(groups[i - 1].0.as_str(), key) {
            return Some(i - 1);
        }
        i = i - 1;
    }
    None
}

/// Group the positions `sel` by `field`.
fn group_positions(sel: &Vec<usize>, fs: &Vec<Finding>, field: &str) -> (r: Vec<(String, Vec<usize>)>)
    requires
        forall|a: int| 0 <= a < sel@.len() ==> #[trigger] sel@[a] < fs@.len(),
    ensures
        groups_view(r@) == groups_of(sel@, fs@, field@),
{
    let mut groups: Vec<(String, Vec<usize>)> = Vec::new();
    let mut k: usize = 0;
    while k < sel.len()
        invariant
            forall|a: int| 0 <= a < sel@.len() ==> #[trigger] sel@[a] < fs@.len(),
            k <= sel@.len(),
            groups_view(groups@) == groups_of(sel@.subrange(0, k as int), fs@, field@),
        decreases sel.len() - k,
    {
        let x = sel[k];
        let key = string_of_chars_key(&fs[x], field);
        let ghost before = groups_view(groups@);
        assert(sel@.subrange(0, k + 1).drop_last() =~= sel@.subrange(0, k as int));
        match find_group(&groups, key.as_str()) {
            Some(g) => {
                proof {
                    lemma_group_index_key(before, key@);
                }
                let ghost old_groups = groups@;
                let mut entry = groups.remove(g);
                assert(entry == old_groups[g as int]);
                entry.1.push(x);
                let ghost members = entry.1@;
                assert(members == before[g as int].1.push(x));
                groups.insert(g, entry);
                assert(groups@ =~= old_groups.update(g as int, entry));
                assert(groups_view(groups@) =~= before.update(g as int, (key@, members)));
            },
            None => {
                let mut members: Vec<usize> = Vec::new();
                members.push(x);
                groups.push((key, members));
                assert(groups_view(groups@) =~= before.push((field_key(fs@[x as int], field@), seq![x])));
            },
        }
        k = k + 1;
    }
    assert(sel@.subrange(0, sel@.len() as int) =~= sel@);
    groups
}

fn string_of_chars_key(f: &Finding, field: &str) -> (r: String)
    ensures
        r@ == field_key(*f, field@),
{
    if str_eq(field, "algorithmId") {
        f.algorithm_id.clone()
    } else if str_eq(field, "ruleId") {
        f.rule_id.clone()
    } else {
        owned("unknown")
    }
}

/// Query stored findings: keep those that pass `filter` (finding `i`
/// scoring `severities[i]`), sort them stably by `sort` when it names
/// `ruleId` or `algorithmId`, and group them by `group_by` when given.
pub fn query_findings(
    findings: &Vec<Finding>,
    severities: &Vec<Option<Severity>>,
    filter: Option<&FindingFilter>,
    sort: Option<&str>,
    group_by: Option<&str>,
) -> (r: QueryResult)
    requires
        severities@.len() == findings@.len(),
    ensures
        match sort {
            Some(s) => if s@ == "ruleId"@ || s@ == "algorithmId"@ {
                stably_sorted(r.selected@, passing(findings@, severities@, opt_filter(filter), findings@.len() as int), findings@, s@)
            } else {
                r.selected@ == passing(findings@, severities@, opt_filter(filter), findings@.len() as int)
            },
            None => r.selected@ == passing(findings@, severities@, opt_filter(filter), findings@.len() as int),
        },
        match group_by {
            Some(g) => r.groups matches Some(gs) && groups_view(gs@) == groups_of(r.selected@, findings@, g@),
            None => r.groups is None,
        },
{
    let ghost fs = findings@;
    let ghost flt = opt_filter(filter);
    let mut p: Vec<usize> = Vec::new();
    let mut i: usize = 0;
    while i < findings.len()
        invariant
            fs == findings@,
            severities@.len() == fs.len(),
            i <= fs.len(),
            p@ == passing(fs, severities@, flt, i as int),
            flt == opt_filter(filter),
        decreases findings.len() - i,
    {
        let keep = apply_filter(&findings[i], filter, severities[i]);
        if keep {
            p.push(i);
        }
        proof {
            assert(((i + 1 - 1) as usize) == i);
            assert(findings@[i as int] == fs[i as int]);
            assert(passes_filter(fs[i as int], flt, severities@[i as int]) == keep);
        }
        i = i + 1;
    }
    proof {
        lemma_passing_bounds(fs, severities@, flt, fs.len() as int);
    }
    let selected = match sort {
        Some(s) => if str_eq(s, "ruleId") || str_eq(s, "algorithmId") {
            stable_sort(&p, findings, s)
        } else {
            p
        },
        None => p,
    };
    proof {
        assert forall|a: int| 0 <= a < selected@.len() implies #[trigger] selected@[a] < fs.len() by {
            if sort matches Some(s) && (s@ == "ruleId"@ || s@ == "algorithmId"@) {
                let w = choose|w: int| 0 <= w < p@.len() && p@[w] == selected@[a];
            }
        }
    }
    let groups = match group_by {
        Some(g) => Some(group_positions(&selected, findings, g)),
        None => None,
    };
    QueryResult { selected, groups }
}

} // verus!
