use seawall::algorithms::{AlgorithmRecord, AlgorithmTable, QuantumStatus};
use seawall::classify::{apply_classify, arg_matches, classify_match, first_line_of, Pattern, ScanError};
use seawall::extract::{ArgMap, ArgValue, RawMatch};
use seawall::findings::{Confidence, SiteContext};
use seawall::rules::{ArgMatch, ClassifyRule, RangeMatch, RegexMatch, RulePack, WhenClause};

fn range(lt: Option<i64>, le: Option<i64>, gt: Option<i64>, ge: Option<i64>) -> ArgMatch {
    ArgMatch::Range(RangeMatch { lt, le, gt, ge })
}

#[test]
fn arg_predicates() {
    let n = ArgValue::Int(2048);
    let s = ArgValue::Str("SECP256R1".to_string());
    assert!(matches!(arg_matches(&n, &ArgMatch::ExactInt(2048)), Ok(true)));
    assert!(matches!(arg_matches(&n, &ArgMatch::ExactInt(4096)), Ok(false)));
    assert!(matches!(arg_matches(&n, &range(Some(2048), None, None, None)), Ok(false)));
    assert!(matches!(arg_matches(&n, &range(None, Some(2048), None, None)), Ok(true)));
    assert!(matches!(arg_matches(&n, &range(None, None, Some(1024), Some(2048))), Ok(true)));
    assert!(matches!(arg_matches(&n, &range(None, None, None, None)), Ok(true)));
    assert!(matches!(arg_matches(&s, &ArgMatch::ExactStr("SECP256R1".to_string())), Ok(true)));
    assert!(matches!(arg_matches(&s, &ArgMatch::Regex(RegexMatch { regex: "^SECP(256|384)R1$".to_string() })), Ok(true)));
    assert!(matches!(arg_matches(&s, &ArgMatch::Regex(RegexMatch { regex: "^P".to_string() })), Ok(false)));
    assert!(matches!(arg_matches(&s, &ArgMatch::Regex(RegexMatch { regex: "(".to_string() })), Err(ScanError::RegexCompile(_))));
    // Cross-type predicates do not hold.
    assert!(matches!(arg_matches(&n, &ArgMatch::ExactStr("2048".to_string())), Ok(false)));
    assert!(matches!(arg_matches(&s, &range(Some(1), None, None, None)), Ok(false)));
}

#[test]
fn patterns_compile_and_match() {
    let p = Pattern::compile("^crypto/rsa\\.GenerateKey$").unwrap();
    assert!(p.is_match("crypto/rsa.GenerateKey"));
    assert!(!p.is_match("crypto/rsaXGenerateKey"));
    assert!(matches!(Pattern::compile("a["), Err(ScanError::RegexCompile(_))));
}

#[test]
fn snippet_first_line() {
    assert_eq!(first_line_of("a := 1\r\nb := 2"), "a := 1");
    assert_eq!(first_line_of("single"), "single");
    assert_eq!(first_line_of("trail\r"), "trail\r");
    assert_eq!(first_line_of(""), "");
    assert_eq!(first_line_of("\nsecond"), "");
}

fn rsa_match(bits: i64, ctx: SiteContext) -> RawMatch {
    let mut args = ArgMap::new();
    args.insert("bits".to_string(), ArgValue::Int(bits));
    RawMatch {
        api: "crypto/rsa.GenerateKey".to_string(),
        args,
        line: 12,
        offset: 340,
        symbol: "rsa.GenerateKey".to_string(),
        snippet: "key, _ := rsa.GenerateKey(rand.Reader, 1024)\nnext".to_string(),
        site_context: ctx,
    }
}

fn rsa_rule(id: &str, pred: ArgMatch, alg: &str) -> ClassifyRule {
    ClassifyRule {
        id: id.to_string(),
        when: WhenClause {
            api: "^crypto/rsa\\.GenerateKey$".to_string(),
            args: vec![("bits".to_string(), pred)],
            site_context: None,
            imports: None,
        },
        algorithm_id: alg.to_string(),
        severity_hint: "critical".to_string(),
        message: "RSA key of {bits} bits ({bits})".to_string(),
        cwe: None,
        parameter_source: None,
    }
}

fn known() -> AlgorithmTable {
    let rec = |id: &str| AlgorithmRecord { id: id.to_string(), quantum_status: QuantumStatus::BrokenByShor, display_name: id.to_string(), notes: String::new(), fips: None, replacement: None, oid: None };
    AlgorithmTable::from_records(vec![rec("rsa-undersized"), rec("rsa-2048")]).unwrap()
}

#[test]
fn a_firing_rule_builds_its_finding() {
    let raw = rsa_match(1024, SiteContext::Call);
    let rule = rsa_rule("CRYPTO-001", range(Some(2048), None, None, None), "rsa-undersized");
    let f = apply_classify(&raw, &rule, &known(), "src/main.go", &vec![]).unwrap().expect("fires");
    assert_eq!(f.rule_id, "CRYPTO-001");
    assert_eq!(f.algorithm_id, "rsa-undersized");
    assert_eq!(f.message, "RSA key of 1024 bits (1024)");
    assert_eq!(f.location.location, "src/main.go");
    assert_eq!(f.location.line, Some(12));
    assert_eq!(f.location.offset, Some(340));
    assert_eq!(f.location.symbol.as_deref(), Some("rsa.GenerateKey"));
    assert_eq!(f.location.snippet.as_deref(), Some("key, _ := rsa.GenerateKey(rand.Reader, 1024)"));
    assert_eq!(f.confidence, Confidence::LiteralArg);
    assert_eq!(f.shelf_life_bucket, "short");
    assert!(!f.hndl_critical);
}

#[test]
fn gates_that_do_not_pass() {
    let rule = rsa_rule("CRYPTO-001", range(Some(2048), None, None, None), "rsa-undersized");
    // The predicate fails.
    assert!(apply_classify(&rsa_match(4096, SiteContext::Call), &rule, &known(), "p", &vec![]).unwrap().is_none());
    // The capture is missing.
    let mut raw = rsa_match(1024, SiteContext::Call);
    raw.args = ArgMap::new();
    assert!(apply_classify(&raw, &rule, &known(), "p", &vec![]).unwrap().is_none());
    // The api does not match.
    let mut raw = rsa_match(1024, SiteContext::Call);
    raw.api = "crypto/ecdsa.GenerateKey".to_string();
    assert!(apply_classify(&raw, &rule, &known(), "p", &vec![]).unwrap().is_none());
    // The site context is not allowed.
    let mut sited = rule.clone();
    sited.when.site_context = Some(vec!["Call".to_string(), "StructLiteral".to_string()]);
    assert!(apply_classify(&rsa_match(1024, SiteContext::TestAssertion), &sited, &known(), "p", &vec![]).unwrap().is_none());
    assert!(apply_classify(&rsa_match(1024, SiteContext::Call), &sited, &known(), "p", &vec![]).unwrap().is_some());
}

#[test]
fn import_gate() {
    let mut rule = rsa_rule("CRYPTO-001", range(Some(2048), None, None, None), "rsa-undersized");
    rule.when.imports = Some(vec!["^crypto/rsa$".to_string()]);
    let raw = rsa_match(1024, SiteContext::Call);
    assert!(apply_classify(&raw, &rule, &known(), "p", &vec!["fmt".to_string()]).unwrap().is_none());
    assert!(apply_classify(&raw, &rule, &known(), "p", &vec!["fmt".to_string(), "crypto/rsa".to_string()]).unwrap().is_some());
    rule.when.imports = Some(vec!["(".to_string()]);
    assert!(matches!(apply_classify(&raw, &rule, &known(), "p", &vec![]), Err(ScanError::RegexCompile(_))));
}

#[test]
fn errors_of_a_firing_rule() {
    let raw = rsa_match(1024, SiteContext::Call);
    let rule = rsa_rule("CRYPTO-001", range(Some(2048), None, None, None), "rsa-tiny");
    match apply_classify(&raw, &rule, &known(), "p", &vec![]) {
        Err(ScanError::UnknownAlgorithm(id)) => assert_eq!(id, "rsa-tiny"),
        _ => panic!("expected UnknownAlgorithm"),
    }
    let mut bad = rule.clone();
    bad.when.api = "[".to_string();
    assert!(matches!(apply_classify(&raw, &bad, &known(), "p", &vec![]), Err(ScanError::RegexCompile(_))));
}

#[test]
fn first_firing_rule_wins() {
    let pack = RulePack {
        extract: vec![],
        classify: vec![
            rsa_rule("CRYPTO-002", ArgMatch::ExactInt(2048), "rsa-2048"),
            rsa_rule("CRYPTO-001", range(Some(2048), None, None, None), "rsa-undersized"),
            rsa_rule("CRYPTO-009", range(Some(4096), None, None, None), "rsa-undersized"),
        ],
    };
    let f = classify_match(&rsa_match(1024, SiteContext::Call), &pack, &known(), "p", &vec![]).unwrap().unwrap();
    assert_eq!(f.rule_id, "CRYPTO-001");
    let f = classify_match(&rsa_match(2048, SiteContext::Call), &pack, &known(), "p", &vec![]).unwrap().unwrap();
    assert_eq!(f.rule_id, "CRYPTO-002");
    assert!(classify_match(&rsa_match(8192, SiteContext::Call), &pack, &known(), "p", &vec![]).unwrap().is_none());
}

#[test]
fn argmap_insert_replaces_in_place() {
    let mut m = ArgMap::new();
    m.insert("a".to_string(), ArgValue::Int(1));
    m.insert("b".to_string(), ArgValue::Int(2));
    m.insert("a".to_string(), ArgValue::Str("x".to_string()));
    assert_eq!(m.entries.len(), 2);
    assert!(matches!(m.get("a"), Some(ArgValue::Str(s)) if s == "x"));
    assert!(matches!(m.get("b"), Some(ArgValue::Int(2))));
    assert!(m.get("c").is_none());
    assert_eq!(ArgValue::Int(-9223372036854775808).as_str(), "-9223372036854775808");
    assert_eq!(ArgValue::Int(0).as_str(), "0");
}

#[test]
fn inserting_a_key_twice_keeps_one_entry() {
    let mut args = ArgMap::new();
    args.insert("bits".to_string(), ArgValue::Int(1024));
    args.insert("curve".to_string(), ArgValue::Str("P256".to_string()));
    args.insert("bits".to_string(), ArgValue::Int(2048));
    assert_eq!(args.entries.len(), 2);
    assert_eq!(args.entries[0].0, "bits");
    assert!(matches!(args.get("bits"), Some(ArgValue::Int(2048))));
}
