use seawall::algorithms::{AlgorithmRecord, AlgorithmTable, QuantumStatus};
use seawall::findings::{Confidence, Exposure, Finding, Location, ScanWarning, ScanWarningKind, Severity, UsageContext};
use seawall::html::report_data;
use seawall::mcp::{
    build_tool_list, cbom_schema_version, cert_scan_mode, check_contract_version, check_kat_mode, route,
    unknown_method_message, verb_for, CertScanMode, Route, SchemaVersion, Verb,
};
use seawall::query::{query_findings, FindingFilter};
use seawall::sarif::{fingerprint, quantum_status_name, sarif_run};

fn finding(rule: &str, algo: &str, line: Option<u32>, snippet: Option<&str>, hndl: bool) -> Finding {
    Finding {
        rule_id: rule.to_string(),
        algorithm_id: algo.to_string(),
        location: Location {
            location: "src/main.go".to_string(),
            line,
            offset: None,
            symbol: None,
            snippet: snippet.map(|s| s.to_string()),
        },
        message: format!("{rule} message"),
        confidence: Confidence::LiteralArg,
        usage_context: UsageContext::Unknown,
        exposure: Exposure::InternalService,
        shelf_life_bucket: "medium".to_string(),
        hndl_critical: hndl,
    }
}

fn record(id: &str, name: &str, status: QuantumStatus, replacement: Option<&str>, oid: Option<&str>) -> AlgorithmRecord {
    AlgorithmRecord {
        id: id.to_string(),
        quantum_status: status,
        display_name: name.to_string(),
        notes: String::new(),
        fips: None,
        replacement: replacement.map(|s| s.to_string()),
        oid: oid.map(|s| s.to_string()),
    }
}

fn table() -> AlgorithmTable {
    AlgorithmTable::from_records(vec![
        record("rsa-2048", "RSA-2048", QuantumStatus::BrokenByShor, Some("ml-kem-768"), Some("1.2.840.113549.1.1.1")),
        record("ml-kem-768", "ML-KEM-768", QuantumStatus::PqcFinal, None, None),
        record("md5", "MD5", QuantumStatus::BrokenClassically, None, None),
    ])
    .unwrap()
}

#[test]
fn fingerprints_are_truncated_sha256() {
    assert_eq!(fingerprint("CRYPTO-001", "rsa.GenerateKey(rand.Reader, 1024)"), "804f6bd822946cd9");
    assert_eq!(fingerprint("CRYPTO-050", ""), "9ec0a89fe8f7390a");
    assert_eq!(quantum_status_name(QuantumStatus::PqcDraft), "PqcDraft");
}

#[test]
fn sarif_rules_are_distinct_and_results_point_at_them() {
    let fs = vec![
        finding("CRYPTO-002", "rsa-2048", Some(12), Some("  rsa.GenerateKey(r, 2048)  "), false),
        finding("CRYPTO-050", "md5", None, None, false),
        finding("CRYPTO-002", "rsa-2048", Some(40), None, false),
        finding("CRYPTO-999", "unknown-algo", Some(3), None, false),
    ];
    let sevs = vec![Some(Severity::Critical), Some(Severity::Low), Some(Severity::High), None];
    let warnings = vec![ScanWarning::new(ScanWarningKind::ParseError, Some("a.go".to_string()), "bad".to_string())];
    let run = sarif_run(&fs, &sevs, &table(), &warnings, "2026-01-01T00:00:00Z");
    let ids: Vec<&str> = run.rules.iter().map(|r| r.id.as_str()).collect();
    assert_eq!(ids, vec!["CRYPTO-002", "CRYPTO-050", "CRYPTO-999"]);
    assert_eq!(run.rules[0].short_description, "RSA-2048 finding");
    assert_eq!(run.rules[0].level, "error");
    assert_eq!(run.rules[0].security_severity, Some("9.0"));
    assert_eq!(run.rules[0].quantum_status, "BrokenByShor");
    assert_eq!(run.rules[2].short_description, "unknown-algo finding");
    assert_eq!(run.rules[2].level, "none");
    assert_eq!(run.rules[2].security_severity, None);
    assert_eq!(run.results[3].level, "none");
    assert_eq!(run.rules[2].quantum_status, "");
    let idx: Vec<usize> = run.results.iter().map(|r| r.rule_index).collect();
    assert_eq!(idx, vec![0, 1, 0, 2]);
    assert_eq!(run.results[0].snippet, "rsa.GenerateKey(r, 2048)");
    assert_eq!(run.results[0].fingerprint, fingerprint("CRYPTO-002", "rsa.GenerateKey(r, 2048)"));
    assert_eq!(run.results[0].cbom_ref, "crypto/algorithm/rsa-2048@1.2.840.113549.1.1.1");
    assert_eq!(run.results[1].cbom_ref, "crypto/algorithm/md5@md5");
    assert_eq!(run.results[1].start_line, 1);
    assert_eq!(run.results[1].level, "note");
    assert_eq!(run.results[2].level, "error");
    assert_eq!(run.notifications.len(), 1);
    assert_eq!(run.notifications[0].uri.as_deref(), Some("a.go"));
    assert_eq!(run.automation_id, "seawall/2026-01-01T00:00:00Z");
}

#[test]
fn html_report_orders_counts_and_caps() {
    let fs = vec![
        finding("CRYPTO-050", "md5", Some(1), None, false),
        finding("CRYPTO-002", "rsa-2048", Some(2), None, true),
        finding("CRYPTO-003", "rsa-2048", Some(3), None, false),
        finding("CRYPTO-999", "nope", None, None, true),
    ];
    let scores = vec![
        Some((40u8, Severity::Medium)),
        Some((90u8, Severity::Critical)),
        Some((40u8, Severity::Medium)),
        None,
    ];
    let warnings: Vec<ScanWarning> = (0..25)
        .map(|i| ScanWarning::new(ScanWarningKind::WalkError, None, format!("w{i}")))
        .collect();
    let d = report_data(&fs, &scores, &table(), &warnings);
    assert_eq!(d.order, vec![1, 0, 2, 3]);
    assert_eq!(d.total_findings, 4);
    assert_eq!((d.count_critical, d.count_medium, d.count_unscored, d.count_hndl), (1, 2, 1, 2));
    assert_eq!(d.pct_vulnerable, 25);
    assert_eq!((d.bar_critical_pct, d.bar_medium_pct, d.bar_unscored_pct), (25, 50, 25));
    let rules: Vec<&str> = d.register_rows.iter().map(|r| r.rule_id.as_str()).collect();
    assert_eq!(rules, vec!["CRYPTO-002", "CRYPTO-050", "CRYPTO-003", "CRYPTO-999"]);
    assert_eq!(d.register_rows[0].replacement, "ML-KEM-768");
    assert_eq!(d.register_rows[0].file_line, "src/main.go:2");
    assert_eq!(d.register_rows[3].algorithm, "nope");
    assert_eq!(d.register_rows[3].severity, None);
    let hndl: Vec<&str> = d.hndl_rows.iter().map(|r| r.rule_id.as_str()).collect();
    assert_eq!(hndl, vec!["CRYPTO-002", "CRYPTO-999"]);
    assert_eq!(d.diagnostic_total, 25);
    assert_eq!(d.diagnostic_rows.len(), 20);
    assert_eq!(d.diagnostic_rows[0].kind, "WalkError");
    let empty = report_data(&vec![], &vec![], &table(), &vec![]);
    assert_eq!((empty.pct_vulnerable, empty.bar_unscored_pct), (0, 100));
}

#[test]
fn queries_filter_sort_and_group() {
    let fs = vec![
        finding("CRYPTO-050", "md5", Some(1), None, false),
        finding("CRYPTO-002", "rsa-2048", Some(2), None, true),
        finding("CRYPTO-001", "rsa-2048", Some(3), None, false),
        finding("CRYPTO-002", "rsa-2048", Some(4), None, false),
    ];
    let sevs = vec![Some(Severity::Low), Some(Severity::Critical), None, Some(Severity::Critical)];
    let all = query_findings(&fs, &sevs, None, Some("ruleId"), None);
    assert_eq!(all.selected, vec![2, 1, 3, 0]);
    assert!(all.groups.is_none());
    let unsorted = query_findings(&fs, &sevs, None, Some("severity"), None);
    assert_eq!(unsorted.selected, vec![0, 1, 2, 3]);
    let critical = FindingFilter { algorithm_id: None, rule_id: None, severity: Some("Critical".to_string()), hndl_critical: None };
    let q = query_findings(&fs, &sevs, Some(&critical), None, Some("algorithmId"));
    assert_eq!(q.selected, vec![1, 3]);
    assert_eq!(q.groups.unwrap(), vec![("rsa-2048".to_string(), vec![1, 3])]);
    let g = query_findings(&fs, &sevs, None, Some("algorithmId"), Some("ruleId")).groups.unwrap();
    let keys: Vec<&str> = g.iter().map(|(k, _)| k.as_str()).collect();
    assert_eq!(keys, vec!["CRYPTO-050", "CRYPTO-002", "CRYPTO-001"]);
    assert_eq!(g[1].1, vec![1, 3]);
    let odd = query_findings(&fs, &sevs, None, None, Some("bogus")).groups.unwrap();
    assert_eq!(odd, vec![("unknown".to_string(), vec![0, 1, 2, 3])]);
}

#[test]
fn mcp_routes_versions_and_tools() {
    assert_eq!(route("initialize"), Route::Initialize);
    assert_eq!(route("listTools"), Route::ListTools);
    assert_eq!(route("call-tool"), Route::CallTool);
    assert_eq!(route("scan_deps"), Route::Verb);
    assert_eq!(verb_for("query_findings"), Some(Verb::QueryFindings));
    assert_eq!(verb_for("nope"), None);
    assert_eq!(unknown_method_message("nope"), "unknown method: nope");
    assert!(check_contract_version(None).is_ok());
    assert!(check_contract_version(Some("0.1.0")).is_ok());
    assert_eq!(
        check_contract_version(Some("9.9")).unwrap_err(),
        "contractVersion mismatch: server is 0.1.0, client asked for 9.9"
    );
    assert!(check_kat_mode(Some("vectorsOnly")).is_ok());
    assert_eq!(
        check_kat_mode(Some("exec")).unwrap_err(),
        "run_acvp_kats only supports mode=\"vectorsOnly\" (P4: no code execution). Got \"exec\""
    );
    let local: Vec<&str> = build_tool_list(false).iter().map(|t| t.name).collect();
    assert_eq!(local.len(), 10);
    assert!(!local.contains(&"scan_network"));
    let net = build_tool_list(true);
    assert_eq!(net.len(), 11);
    assert_eq!(net[10].name, "scan_network");
    assert_eq!(net[0].input_schema, "{\"type\":\"object\",\"properties\":{\"path\":{\"type\":\"string\",\"description\":\"File or directory to scan\"},\"sessionMode\":{\"type\":\"string\",\"enum\":[\"blocking\",\"streaming\"],\"default\":\"blocking\"}},\"required\":[\"path\"]}");
}

#[test]
fn cert_host_mode_needs_the_network_flag() {
    assert_eq!(cert_scan_mode(None, false), Ok(CertScanMode::Files));
    assert_eq!(cert_scan_mode(Some(0), false), Ok(CertScanMode::Files));
    assert_eq!(cert_scan_mode(Some(2), true), Ok(CertScanMode::Hosts));
    assert_eq!(
        cert_scan_mode(Some(1), false),
        Err("scan_certs host-mode requires --allow-network at process launch".to_string())
    );
    assert!(build_tool_list(false).iter().all(|t| t.name != "scan_network"));
    assert_eq!(build_tool_list(true).last().map(|t| t.name), Some("scan_network"));
}

#[test]
fn cbom_schema_version_defaults_to_the_newest() {
    assert_eq!(cbom_schema_version(None), Ok(SchemaVersion::V1_7));
    assert_eq!(cbom_schema_version(Some("1.6")), Ok(SchemaVersion::V1_6));
    assert_eq!(cbom_schema_version(Some("1.7")).map(|v| v.as_str()), Ok("1.7"));
    assert_eq!(
        cbom_schema_version(Some("1.5")),
        Err("unsupported schemaVersion `1.5` (use 1.6 or 1.7)".to_string())
    );
}
