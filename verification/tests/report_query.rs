use seawall::algorithms::{AlgorithmRecord, AlgorithmTable, QuantumStatus};
use seawall::findings::{Confidence, Exposure, Finding, Location, ScanWarningKind, Severity, UsageContext};
use seawall::query::{apply_filter, parse_severity, FindingFilter};
use seawall::report::{file_line_str, severity_to_sarif, warning_kind_label, why_this_matters};

fn finding(rule: &str, alg: &str, line: Option<u32>, hndl: bool) -> Finding {
    Finding {
        rule_id: rule.to_string(),
        algorithm_id: alg.to_string(),
        location: Location { location: "src/a.go".to_string(), line, offset: None, symbol: None, snippet: None },
        message: String::new(),
        confidence: Confidence::LiteralArg,
        usage_context: UsageContext::Unknown,
        exposure: Exposure::InternalService,
        shelf_life_bucket: "short".to_string(),
        hndl_critical: hndl,
    }
}

#[test]
fn report_text_pieces() {
    assert_eq!(file_line_str(&finding("R", "md5", Some(42), false)), "src/a.go:42");
    assert_eq!(file_line_str(&finding("R", "md5", None, false)), "src/a.go");
    assert_eq!(warning_kind_label(&ScanWarningKind::DepManifestError), "DepManifestError");
    assert_eq!(severity_to_sarif(Severity::Critical), ("error", "9.0"));
    assert_eq!(severity_to_sarif(Severity::Medium), ("warning", "5.0"));
    assert_eq!(severity_to_sarif(Severity::Safe), ("note", "3.0"));
}

#[test]
fn why_this_matters_sentences() {
    assert_eq!(
        why_this_matters(None, None),
        "Algorithm not in the seawall catalogue; classification unavailable. Investigate manually."
    );
    let t = AlgorithmTable::from_builtin().unwrap();
    let rsa = AlgorithmRecord {
        id: "rsa-2048".to_string(),
        quantum_status: QuantumStatus::BrokenByShor,
        display_name: "RSA-2048".to_string(),
        notes: "  Widely deployed.  ".to_string(),
        fips: None,
        replacement: Some("ml-kem-768".to_string()),
        oid: None,
    };
    let kem = t.get("ml-kem-768").unwrap();
    assert_eq!(
        why_this_matters(Some(&rsa), Some(kem)),
        "Vulnerable to Shor's algorithm; a cryptographically relevant quantum computer breaks this in polynomial time. Widely deployed. Recommended replacement: ML-KEM-768 per FIPS 203."
    );
    let md5 = t.get("md5").unwrap();
    assert_eq!(
        why_this_matters(Some(md5), None),
        "Classically broken — practical attacks exist today, independent of any quantum threat."
    );
}

#[test]
fn findings_filter() {
    let f = finding("CRYPTO-001", "rsa-undersized", Some(1), true);
    assert!(apply_filter(&f, None, None));
    let by_alg = FindingFilter { algorithm_id: Some("rsa-undersized".to_string()), rule_id: None, severity: None, hndl_critical: None };
    assert!(apply_filter(&f, Some(&by_alg), None));
    let other = FindingFilter { algorithm_id: Some("md5".to_string()), ..by_alg.clone() };
    assert!(!apply_filter(&f, Some(&other), None));
    let sev = FindingFilter { algorithm_id: None, rule_id: None, severity: Some("Critical".to_string()), hndl_critical: None };
    assert!(apply_filter(&f, Some(&sev), Some(Severity::Critical)));
    assert!(!apply_filter(&f, Some(&sev), Some(Severity::High)));
    // An unscored finding matches no severity filter.
    assert!(!apply_filter(&f, Some(&sev), None));
    let hndl = FindingFilter { algorithm_id: None, rule_id: Some("CRYPTO-001".to_string()), severity: None, hndl_critical: Some(false) };
    assert!(!apply_filter(&f, Some(&hndl), None));
    assert_eq!(parse_severity("Low"), Severity::Low);
    assert_eq!(parse_severity("low"), Severity::Safe);
}
