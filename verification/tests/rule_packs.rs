use std::collections::HashSet;

use seawall::rules::{
    curve_named_by, rule_ecdsa_curve_mismatch, rule_hash_width_mismatch,
    rule_publishes_unobserved_parameter, ArgMatch, ClassifyRule, Language, RegexMatch, RulePack,
    WhenClause,
};
use seawall::surface::api_surface;

fn packs() -> Vec<(&'static str, RulePack)> {
    vec![
        ("go", RulePack::builtin_go().unwrap()),
        ("python", RulePack::builtin_python().unwrap()),
        ("java", RulePack::builtin_java().unwrap()),
        ("javascript", RulePack::builtin_javascript().unwrap()),
        ("cpp", RulePack::builtin_cpp().unwrap()),
        ("rust", RulePack::builtin_rust().unwrap()),
        ("csharp", RulePack::builtin_csharp().unwrap()),
    ]
}

fn all_classify_rules() -> Vec<(&'static str, ClassifyRule)> {
    let mut out = Vec::new();
    for (lang, pack) in packs() {
        for r in pack.classify {
            out.push((lang, r));
        }
    }
    out
}

#[test]
fn builtin_rules_load() {
    let go = RulePack::builtin_go().expect("Go rule pack must parse");
    let py = RulePack::builtin_python().expect("Python rule pack must parse");
    let java = RulePack::builtin_java().expect("Java rule pack must parse");
    let js = RulePack::builtin_javascript().expect("JS rule pack must parse");
    let cpp = RulePack::builtin_cpp().expect("C/C++ rule pack must parse");
    let rust = RulePack::builtin_rust().expect("Rust rule pack must parse");
    let cs = RulePack::builtin_csharp().expect("C# rule pack must parse");
    assert!(!go.classify.is_empty());
    assert!(!py.classify.is_empty());
    assert!(!java.classify.is_empty());
    assert!(!js.classify.is_empty());
    assert!(!cpp.classify.is_empty());
    assert!(!rust.classify.is_empty());
    assert!(!cs.classify.is_empty());
}

#[test]
fn classify_rules_never_publish_a_parameter_their_when_clause_contradicts() {
    let mut offenders = Vec::new();
    for (lang, pack) in &packs() {
        for rule in &pack.classify {
            let evidence = format!("{} {:?}", rule.when.api, rule.when.args);
            let width = rule
                .algorithm_id
                .strip_prefix("aes-")
                .and_then(|rest| ["128", "192", "256"].iter().find(|w| rest.starts_with(**w)));
            if let Some(width) = width {
                if !evidence.contains(width) {
                    offenders.push(format!(
                        "{}/{} publishes `{}` but its `when` never reads {}",
                        lang, rule.id, rule.algorithm_id, width
                    ));
                }
            }
            let published = rule
                .algorithm_id
                .strip_prefix("ecdsa-p")
                .or_else(|| rule.algorithm_id.strip_prefix("ecdh-p"))
                .filter(|rest| rest.chars().all(|c| c.is_ascii_digit()));
            if let Some(published) = published {
                if let Some(matched) = curve_named_by(&evidence) {
                    if matched != published {
                        offenders.push(format!(
                            "{}/{} matches P-{} but publishes `{}`",
                            lang, rule.id, matched, rule.algorithm_id
                        ));
                    }
                }
            }
            if rule_publishes_unobserved_parameter(rule) {
                offenders.push(format!("{}/{} fails the library check", lang, rule.id));
            }
        }
    }
    assert!(
        offenders.is_empty(),
        "classify rules asserting a parameter their `when` clause cannot observe:\n  {}",
        offenders.join("\n  ")
    );
}

#[test]
fn every_classify_rule_targets_an_api_the_extractor_can_emit() {
    let surface = api_surface();
    let mut stranded = Vec::new();
    for (lang, pack) in &packs() {
        for rule in &pack.classify {
            let re = regex::Regex::new(&rule.when.api)
                .unwrap_or_else(|e| panic!("[{lang}] {}: bad api regex: {e}", rule.id));
            if !surface.iter().any(|api| re.is_match(api)) {
                stranded.push(format!(
                    "{}/{}: when.api = {:?} matches no api the extract layer emits",
                    lang, rule.id, rule.when.api
                ));
            }
        }
    }
    assert!(
        stranded.is_empty(),
        "{} classify rules can never fire:\n  {}",
        stranded.len(),
        stranded.join("\n  ")
    );
}

#[test]
fn phase13_hash_variant_consistency() {
    let rules = all_classify_rules();
    let mut violations = Vec::new();
    for (lang, r) in &rules {
        let mut probe = r.when.api.clone();
        for (_, am) in r.when.args.iter() {
            if let ArgMatch::Regex(rx) = am {
                probe.push(' ');
                probe.push_str(&rx.regex);
            } else if let ArgMatch::ExactStr(s) = am {
                probe.push(' ');
                probe.push_str(s);
            }
        }
        let single_variant = |needle: &str| -> bool {
            probe.contains(needle) && {
                let other_variants: Vec<&str> = ["256", "384", "512"]
                    .iter()
                    .filter(|v| **v != needle)
                    .copied()
                    .collect();
                !other_variants.iter().any(|o| probe.contains(o))
            }
        };
        for needle in ["256", "384", "512"] {
            if single_variant(needle) {
                let other_variants: Vec<&str> = ["256", "384", "512"]
                    .iter()
                    .filter(|v| **v != needle)
                    .copied()
                    .collect();
                for wrong in &other_variants {
                    if r.algorithm_id.contains(wrong) && !r.algorithm_id.contains(needle) {
                        violations.push(format!(
                            "[{lang}] {}: when.* mentions {needle} but algorithm_id={} mentions {wrong}",
                            r.id, r.algorithm_id
                        ));
                    }
                }
            }
        }
    }
    assert!(
        violations.is_empty(),
        "hash-variant consistency violations:\n  {}",
        violations.join("\n  ")
    );
}

#[test]
fn phase13_ecdsa_curve_consistency() {
    let rules = all_classify_rules();
    let mut violations = Vec::new();
    let curve_pairs = [
        ("ES384", "ecdsa-p256"),
        ("ES384", "ecdsa-p521"),
        ("ES512", "ecdsa-p256"),
        ("ES512", "ecdsa-p384"),
    ];
    for (lang, r) in &rules {
        let mut probe = r.when.api.clone();
        for (_, am) in r.when.args.iter() {
            if let ArgMatch::Regex(rx) = am {
                probe.push(' ');
                probe.push_str(&rx.regex);
            }
        }
        for (variant, wrong_id) in &curve_pairs {
            if probe.contains(variant)
                && !probe.contains(&format!("{}|", variant))
                && !probe.contains(&format!("|{}", variant))
                && r.algorithm_id == *wrong_id
            {
                violations.push(format!(
                    "[{lang}] {}: when.* pins {variant} but algorithm_id={}",
                    r.id, r.algorithm_id
                ));
            }
        }
    }
    assert!(
        violations.is_empty(),
        "ECDSA curve consistency violations:\n  {}",
        violations.join("\n  ")
    );
}

const ALLOWED_SEVERITY_HINTS: &[&str] = &["critical", "high", "medium", "low", "auto"];

#[test]
fn phase14b_every_severity_hint_allowed() {
    let rules = all_classify_rules();
    let mut bad = Vec::new();
    for (lang, r) in &rules {
        if !ALLOWED_SEVERITY_HINTS.contains(&r.severity_hint.as_str()) {
            bad.push(format!(
                "[{lang}] {}: severity_hint={:?} not in {:?}",
                r.id, r.severity_hint, ALLOWED_SEVERITY_HINTS
            ));
        }
    }
    assert!(
        bad.is_empty(),
        "{} classify rules use unknown severity_hint:\n  {}",
        bad.len(),
        bad.join("\n  ")
    );
}

#[test]
fn phase14b_classify_rule_ids_unique_within_language() {
    let packs = packs();
    let mut dupes = Vec::new();
    for (lang, pack) in &packs {
        let mut seen: HashSet<&str> = HashSet::new();
        for r in &pack.classify {
            if !seen.insert(r.id.as_str()) {
                dupes.push(format!("[{lang}] duplicate classify rule id {}", r.id));
            }
        }
    }
    assert!(
        dupes.is_empty(),
        "{} duplicate rule ids:\n  {}",
        dupes.len(),
        dupes.join("\n  ")
    );
}

#[test]
fn every_when_api_regex_compiles() {
    for (lang, r) in &all_classify_rules() {
        assert!(regex::Regex::new(&r.when.api).is_ok(), "[{lang}] {}", r.id);
    }
}

#[test]
fn every_builtin_pack_passes_its_audit() {
    for (lang, pack) in &packs() {
        assert!(pack.audit(), "{lang}");
    }
}

fn rule(id: &str, api: &str, algorithm_id: &str, args: Vec<(String, ArgMatch)>) -> ClassifyRule {
    ClassifyRule {
        id: id.to_string(),
        when: WhenClause { api: api.to_string(), args, site_context: None, imports: None },
        algorithm_id: algorithm_id.to_string(),
        severity_hint: "high".to_string(),
        message: "m".to_string(),
        cwe: None,
        parameter_source: None,
    }
}

#[test]
fn audit_rejects_duplicate_ids() {
    let pack = RulePack {
        extract: vec![],
        classify: vec![rule("X-1", "^a$", "md5", vec![]), rule("X-1", "^b$", "sha-1", vec![])],
    };
    assert!(!pack.audit());
}

#[test]
fn audit_rejects_an_empty_pack_and_an_unknown_severity_hint() {
    assert!(!RulePack { extract: vec![], classify: vec![] }.audit());
    let mut r = rule("X-1", "^a$", "md5", vec![]);
    r.severity_hint = "criticla".to_string();
    assert!(!RulePack { extract: vec![], classify: vec![r] }.audit());
}

#[test]
fn aes_width_must_be_observable() {
    let bad = rule("X-1", "^javax\\.crypto\\.Cipher\\.getInstance$", "aes-256-gcm", vec![]);
    assert!(rule_publishes_unobserved_parameter(&bad));
    let good = rule(
        "X-2",
        "^javax\\.crypto\\.Cipher\\.getInstance$",
        "aes-256-gcm",
        vec![("spec".to_string(), ArgMatch::Regex(RegexMatch { regex: "^AES_256/GCM".to_string() }))],
    );
    assert!(!rule_publishes_unobserved_parameter(&good));
}

#[test]
fn curve_contradiction_is_caught() {
    let bad = rule("X-1", "^crypto/ecdh\\.Curve$", "ecdh-p384", vec![("curve_fn".to_string(), ArgMatch::ExactStr("P521".to_string()))]);
    assert!(rule_publishes_unobserved_parameter(&bad));
    assert_eq!(curve_named_by("CURVE prime256v1"), Some("256"));
    assert_eq!(curve_named_by("secp384r1"), Some("384"));
    assert_eq!(curve_named_by("P-521"), Some("521"));
    assert_eq!(curve_named_by("ES512"), None);
}

#[test]
fn hash_and_jose_curve_mismatches_are_caught() {
    let bad = rule("X-1", "^HS384$", "sha-256", vec![]);
    assert!(rule_hash_width_mismatch(&bad));
    let joint = rule("X-2", "^HS(256|384)$", "sha-256", vec![]);
    assert!(!rule_hash_width_mismatch(&joint));
    let es = rule("X-3", "^jwt$", "ecdsa-p256", vec![("alg".to_string(), ArgMatch::Regex(RegexMatch { regex: "^ES384$".to_string() }))]);
    assert!(rule_ecdsa_curve_mismatch(&es));
    let alt = rule("X-4", "^jwt$", "ecdsa-p256", vec![("alg".to_string(), ArgMatch::Regex(RegexMatch { regex: "^(ES256|ES384)$".to_string() }))]);
    assert!(!rule_ecdsa_curve_mismatch(&alt));
}

#[test]
fn language_parse_and_extensions() {
    assert_eq!(Language::parse("go"), Some(Language::Go));
    assert_eq!(Language::parse("c++"), Some(Language::Cpp));
    assert_eq!(Language::parse("c#"), Some(Language::CSharp));
    assert_eq!(Language::parse("Go"), None);
    assert_eq!(Language::JavaScript.extensions(), vec!["js", "mjs", "cjs"]);
    assert_eq!(Language::Cpp.extensions(), vec!["cpp", "cc", "cxx", "hpp", "hxx"]);
}

#[test]
fn phase14b_every_algorithm_id_resolves() {
    let b = seawall::builtins::load_builtins().expect("builtins");
    let rules = all_classify_rules();
    let mut missing = Vec::new();
    for (lang, r) in &rules {
        if b.algorithms.get(&r.algorithm_id).is_none() {
            missing.push(format!("[{lang}] {}: algorithm_id={} is not in the algorithm table", r.id, r.algorithm_id));
        }
    }
    assert!(missing.is_empty(), "{} classify rules reference unknown algorithm_ids:\n  {}", missing.len(), missing.join("\n  "));
}

#[test]
fn phase14b_every_when_api_regex_compiles() {
    let rules = all_classify_rules();
    let mut bad = Vec::new();
    for (lang, r) in &rules {
        if let Err(e) = regex::Regex::new(&r.when.api) {
            bad.push(format!("[{lang}] {}: when.api invalid: {}", r.id, e));
        }
    }
    assert!(bad.is_empty(), "{} classify rules have invalid when.api regex:\n  {}", bad.len(), bad.join("\n  "));
}

#[test]
fn phase14b_every_when_args_regex_compiles() {
    let rules = all_classify_rules();
    let mut bad = Vec::new();
    for (lang, r) in &rules {
        for (cap, am) in &r.when.args {
            if let ArgMatch::Regex(rx) = am {
                if let Err(e) = regex::Regex::new(&rx.regex) {
                    bad.push(format!("[{lang}] {}: when.args.{} regex invalid: {}", r.id, cap, e));
                }
            }
        }
    }
    assert!(bad.is_empty(), "{} classify rules have invalid when.args regex:\n  {}", bad.len(), bad.join("\n  "));
}

#[test]
fn phase14b_every_cwe_id_well_formed() {
    let cwe_pattern = regex::Regex::new(r"^CWE-\d+$").unwrap();
    let rules = all_classify_rules();
    let mut bad = Vec::new();
    for (lang, r) in &rules {
        if let Some(cwe) = &r.cwe {
            if !cwe_pattern.is_match(cwe) {
                bad.push(format!("[{lang}] {}: cwe={:?} doesn't match ^CWE-\\d+$", r.id, cwe));
            }
        }
    }
    assert!(bad.is_empty(), "{} classify rules have malformed cwe ids:\n  {}", bad.len(), bad.join("\n  "));
}

#[test]
fn go_pack_rows_in_order() {
    let p = RulePack::builtin_go().unwrap();
    assert_eq!(p.classify.len(), 18);
    assert_eq!(p.extract.len(), 3);
    let first = &p.classify[0];
    assert_eq!(first.id, "CRYPTO-001");
    assert_eq!(first.when.api, "^crypto/rsa\\.GenerateKey$");
    assert_eq!(first.algorithm_id, "rsa-undersized");
    assert_eq!(first.severity_hint, "critical");
    assert_eq!(first.cwe.as_deref(), Some("CWE-326"));
    assert_eq!(first.when.args.len(), 1);
    assert_eq!(first.when.args[0].0, "bits");
    match &first.when.args[0].1 {
        ArgMatch::Range(r) => {
            assert_eq!((r.lt, r.le, r.gt, r.ge), (Some(2048), None, None, None));
        },
        _ => panic!("CRYPTO-001 bounds the key size"),
    }
    let ids: Vec<&str> = p.classify.iter().map(|r| r.id.as_str()).collect();
    assert_eq!(&ids[..4], &["CRYPTO-001", "CRYPTO-002", "CRYPTO-003", "CRYPTO-004"]);
    assert_eq!(p.classify[17].algorithm_id, "sha-512");
    assert_eq!(p.extract[0].id, "go-rsa-generatekey");
}

#[test]
fn pack_sizes_per_language() {
    let sizes: Vec<(&str, usize)> = packs().iter().map(|(l, p)| (*l, p.classify.len())).collect();
    assert_eq!(
        sizes,
        vec![("go", 18), ("python", 10), ("java", 7), ("javascript", 9), ("cpp", 7), ("rust", 66), ("csharp", 9)]
    );
}

#[test]
fn scanner_holds_each_language_pack() {
    let b = seawall::builtins::load_builtins().unwrap();
    let s = seawall::scanner::Scanner::with_builtins(b.algorithms).unwrap();
    assert_eq!(s.rules_for(Language::Go).classify[0].id, "CRYPTO-001");
    assert_eq!(s.rules_for(Language::Python).classify[0].id, "CRYPTO-101");
    assert_eq!(s.rules_for(Language::TypeScript).classify[0].id, "CRYPTO-300");
    assert_eq!(s.rules_for(Language::Cpp).classify[0].id, "CRYPTO-400");
    assert_eq!(s.rules_for(Language::C).classify[0].id, "CRYPTO-400");
    assert_eq!(s.rules_for(Language::CSharp).classify[0].id, "CRYPTO-600");
}

#[test]
fn every_listed_extension_is_detected_as_its_language() {
    for l in [
        Language::Go,
        Language::Python,
        Language::Java,
        Language::JavaScript,
        Language::TypeScript,
        Language::C,
        Language::Cpp,
        Language::Rust,
        Language::CSharp,
    ] {
        for e in l.extensions() {
            assert_eq!(seawall::literals::detect_language(&format!("src/f.{e}")), Some(l));
        }
    }
    assert_eq!(seawall::literals::detect_language("src/f.GO"), None);
    assert_eq!(seawall::literals::detect_language("src/f.txt"), None);
    assert_eq!(seawall::literals::detect_language("src/f"), None);
    assert_eq!(seawall::literals::detect_language("src/.rs"), None);
}
