//! The pieces of text the reports are assembled from: a finding's
//! `path:line`, a warning kind's label, a severity's SARIF level, and the
//! "why this matters" sentence of a finding.
use vstd::prelude::*;
use vstd::string::*;
use crate::algorithms::{AlgorithmRecord, QuantumStatus};
use crate::extract::int_text;
use crate::findings::{Finding, ScanWarningKind, Severity};
use crate::text::{chars_of, owned, string_from_chars, trim_chars, trim_ws};

verus! {

/// `path:line`, or the path alone when the finding has no line.
pub open spec fn file_line_text(f: Finding) -> Seq<char> {
    match f.location.line {
        Some(line) => f.location.location@ + ":"@ + int_text(line as int),
        None => f.location.location@,
    }
}

/// A finding's `path:line`.
pub fn file_line_str(f: &Finding) -> (r: String)
    ensures
        r@ == file_line_text(*f),
{
    match f.location.line {
        Some(line) => {
            let mut s = f.location.location.clone();
            s.append(":");
            s.append(string_from_chars(&crate::extract::digits_of(line as u64)).as_str());
            s
        },
        None => f.location.location.clone(),
    }
}

pub open spec fn warning_label(k: ScanWarningKind) -> Seq<char> {
    match k {
        ScanWarningKind::UnreadableFile => "UnreadableFile"@,
        ScanWarningKind::ParseError => "ParseError"@,
        ScanWarningKind::WalkError => "WalkError"@,
        ScanWarningKind::DepManifestError => "DepManifestError"@,
        ScanWarningKind::CertDecodeError => "CertDecodeError"@,
        ScanWarningKind::Other => "Other"@,
    }
}

/// Human-readable label for a warning kind.
pub fn warning_kind_label(kind: &ScanWarningKind) -> (r: &'static str)
    ensures
        r@ == warning_label(*kind),
{
    match kind {
        ScanWarningKind::UnreadableFile => "UnreadableFile",
        ScanWarningKind::ParseError => "ParseError",
        ScanWarningKind::WalkError => "WalkError",
        ScanWarningKind::DepManifestError => "DepManifestError",
        ScanWarningKind::CertDecodeError => "CertDecodeError",
        ScanWarningKind::Other => "Other",
    }
}

pub open spec fn sarif_level(s: Severity) -> (Seq<char>, Seq<char>) {
    match s {
        Severity::Critical => ("error"@, "9.0"@),
        Severity::High => ("error"@, "8.0"@),
        Severity::Medium => ("warning"@, "5.0"@),
        Severity::Low => ("note"@, "3.0"@),
        Severity::Safe => ("note"@, "3.0"@),
    }
}

/// A severity's SARIF `level` and `security-severity`.
pub fn severity_to_sarif(severity: Severity) -> (r: (&'static str, &'static str))
    ensures
        (r.0@, r.1@) == sarif_level(severity),
{
    match severity {
        Severity::Critical => ("error", "9.0"),
        Severity::High => ("error", "8.0"),
        Severity::Medium => ("warning", "5.0"),
        Severity::Low => ("note", "3.0"),
        Severity::Safe => ("note", "3.0"),
    }
}

/// The sentence each quantum status opens with.
pub open spec fn preamble(s: QuantumStatus) -> Seq<char> {
    match s {
        QuantumStatus::BrokenClassically => "Classically broken — practical attacks exist today, independent of any quantum threat."@,
        QuantumStatus::BrokenByShor => "Vulnerable to Shor's algorithm; a cryptographically relevant quantum computer breaks this in polynomial time."@,
        QuantumStatus::WeakenedByGrover => "Weakened under Grover's algorithm; effective security halves against quantum search. Keep using only at sufficiently large parameters."@,
        QuantumStatus::QuantumSafe => "Quantum-safe at the chosen parameters — Grover's algorithm does not reduce security below acceptable levels."@,
        QuantumStatus::PqcFinal => "NIST-final post-quantum algorithm; designed to resist both classical and quantum attacks."@,
        QuantumStatus::PqcDraft => "Draft post-quantum algorithm; expected to be standardized but the specification may still change."@,
    }
}

fn preamble_text(s: QuantumStatus) -> (r: &'static str)
    ensures
        r@ == preamble(s),
{
    match s {
        QuantumStatus::BrokenClassically => "Classically broken — practical attacks exist today, independent of any quantum threat.",
        QuantumStatus::BrokenByShor => "Vulnerable to Shor's algorithm; a cryptographically relevant quantum computer breaks this in polynomial time.",
        QuantumStatus::WeakenedByGrover => "Weakened under Grover's algorithm; effective security halves against quantum search. Keep using only at sufficiently large parameters.",
        QuantumStatus::QuantumSafe => "Quantum-safe at the chosen parameters — Grover's algorithm does not reduce security below acceptable levels.",
        QuantumStatus::PqcFinal => "NIST-final post-quantum algorithm; designed to resist both classical and quantum attacks.",
        QuantumStatus::PqcDraft => "Draft post-quantum algorithm; expected to be standardized but the specification may still change.",
    }
}

/// The sentence for an algorithm the catalogue does not have.
pub open spec fn unknown_algorithm_text() -> Seq<char> {
    "Algorithm not in the seawall catalogue; classification unavailable. Investigate manually."@
}

/// The "why this matters" sentence: the status preamble, the catalogue
/// note when there is one, and the recommended replacement when there is
/// one, joined by spaces.
pub open spec fn why_text(algo: Option<AlgorithmRecord>, replacement: Option<AlgorithmRecord>) -> Seq<char> {
    match algo {
        None => unknown_algorithm_text(),
        Some(a) => {
            let note = trim_ws(a.notes@);
            let with_note = if note.len() == 0 {
                preamble(a.quantum_status)
            } else {
                preamble(a.quantum_status) + " "@ + note
            };
            match replacement {
                None => with_note,
                Some(r) => with_note + " "@ + "Recommended replacement: "@ + r.display_name@ + match r.fips {
                    Some(f) => " per "@ + f@,
                    None => Seq::empty(),
                } + "."@,
            }
        },
    }
}

/// Build the plain-English "why this matters" sentence for a finding, from
/// fixed text per quantum status and text copied from the catalogue.
pub fn why_this_matters(algo: Option<&AlgorithmRecord>, replacement: Option<&AlgorithmRecord>) -> (r: String)
    ensures
        r@ == why_text(
            match algo {
                Some(a) => Some(*a),
                None => None,
            },
            match replacement {
                Some(x) => Some(*x),
                None => None,
            },
        ),
{
    let a = match algo {
        None => {
            return owned("Algorithm not in the seawall catalogue; classification unavailable. Investigate manually.");
        },
        Some(a) => a,
    };
    let mut out = owned(preamble_text(a.quantum_status));
    let note = trim_chars(&chars_of(a.notes.as_str()));
    if note.len() > 0 {
        out.append(" ");
        out.append(string_from_chars(&note).as_str());
    }
    match replacement {
        None => {},
        Some(r) => {
            out.append(" ");
            out.append("Recommended replacement: ");
            out.append(r.display_name.as_str());
            match &r.fips {
                Some(f) => {
                    out.append(" per ");
                    out.append(f.as_str());
                },
                None => {
                    proof {
                        reveal_strlit("");
                    }
                },
            }
            out.append(".");
        },
    }
    proof {
        reveal_strlit("");
    }
    assert(out@ =~= why_text(
        match algo {
            Some(a) => Some(*a),
            None => None,
        },
        match replacement {
            Some(x) => Some(*x),
            None => None,
        },
    ));
    out
}

} // verus!
