use seawall::kat::{
    run, verify_fields, CandidateOutputs, JsonFields, KatCase, KatGroup, VectorSet, E_RULESET_INVALID,
};

fn case(tc_id: u64, strings: &[(&str, &str)], passed: Option<bool>) -> KatCase {
    KatCase {
        tc_id: Some(tc_id),
        fields: JsonFields {
            strings: strings.iter().map(|(k, v)| (k.to_string(), v.to_string())).collect(),
            bools: passed.map(|b| vec![("testPassed".to_string(), b)]).unwrap_or_default(),
        },
    }
}

fn keygen_vectors() -> VectorSet {
    VectorSet {
        vs_id: Some("42".to_string()),
        test_groups: Some(vec![
            KatGroup {
                tg_id: Some(1),
                tests: Some(vec![
                    case(1, &[("pk", "AB01"), ("sk", "CD02")], None),
                    case(2, &[("pk", "EF03"), ("sk", "0405")], None),
                ]),
            },
            KatGroup { tg_id: Some(2), tests: None },
            KatGroup { tg_id: Some(3), tests: Some(vec![case(3, &[("pk", "aa"), ("sk", "bb")], None)]) },
        ]),
    }
}

fn sigver_vectors() -> VectorSet {
    VectorSet {
        vs_id: None,
        test_groups: Some(vec![KatGroup {
            tg_id: Some(7),
            tests: Some(vec![case(10, &[], Some(true)), case(11, &[], Some(false)), case(12, &[], Some(true))]),
        }]),
    }
}

/// The expected values of the first `n` cases, as candidates.
fn expected_candidates(v: &VectorSet, fields: &[&str], n: usize) -> CandidateOutputs {
    let mut entries = Vec::new();
    for g in v.test_groups.as_ref().unwrap() {
        for tc in g.tests.as_ref().map(|t| t.as_slice()).unwrap_or(&[]) {
            if entries.len() >= n {
                return CandidateOutputs { entries };
            }
            let strings: Vec<(String, String)> = tc
                .fields
                .strings
                .iter()
                .filter(|(k, _)| fields.contains(&k.as_str()))
                .cloned()
                .collect();
            let bools: Vec<(String, bool)> = tc
                .fields
                .bools
                .iter()
                .filter(|(k, _)| fields.contains(&k.as_str()))
                .cloned()
                .collect();
            if !strings.is_empty() || !bools.is_empty() {
                entries.push((tc.tc_id.unwrap_or(0).to_string(), JsonFields { strings, bools }));
            }
        }
    }
    CandidateOutputs { entries }
}

#[test]
fn mldsa44_keygen_correct_outputs_pass() {
    let v = keygen_vectors();
    let candidates = expected_candidates(&v, &["pk", "sk"], 3);
    assert!(!candidates.entries.is_empty());
    let result = run("ML-DSA-44", "keyGen", &v, &candidates).expect("run should not error");
    let passed: usize = result.groups.iter().map(|g| g.passed).sum();
    assert!(passed >= candidates.entries.len());
    assert_eq!(result.overall, "pass");
    assert_eq!(result.vector_source.authority, "NIST-ACVP");
    assert_eq!(result.vector_source.set_version, "42");
    assert_eq!(result.groups.len(), 2);
    assert_eq!(result.groups[0].name, "tg1");
    assert_eq!(result.groups[1].name, "tg3");
}

#[test]
fn mldsa44_keygen_wrong_sk_fails_with_tc_id() {
    let v = keygen_vectors();
    let mut candidates = expected_candidates(&v, &["pk", "sk"], 1);
    let tc_id = candidates.entries[0].0.clone();
    candidates.entries[0].1.strings = vec![
        ("pk".to_string(), "ab01".to_string()),
        ("sk".to_string(), "deadbeefdeadbeefdeadbeef".to_string()),
    ];
    let result = run("ML-DSA-44", "keyGen", &v, &candidates).expect("run should not error");
    assert_eq!(result.overall, "fail");
    let tc_num: u64 = tc_id.parse().unwrap();
    assert!(result.failures.iter().any(|f| f.tc_id == tc_num && f.field == "sk"));
    // The upper-case expected pk compares equal to the lower-case candidate.
    assert!(!result.failures.iter().any(|f| f.tc_id == tc_num && f.field == "pk"));
    // Cases without a candidate fail on every field.
    assert_eq!(result.groups[0].failed, 2);
    assert_eq!(result.groups[0].passed, 0);
    assert_eq!(result.groups[1].total, 1);
}

#[test]
fn mldsa65_siggen_correct_signature_passes() {
    let v = VectorSet {
        vs_id: Some("\"7\"".to_string()),
        test_groups: Some(vec![KatGroup {
            tg_id: None,
            tests: Some(vec![case(5, &[("signature", "0A0B")], None), case(6, &[("signature", "0C")], None)]),
        }]),
    };
    let candidates = expected_candidates(&v, &["signature"], 2);
    let result = run("ML-DSA-65", "sigGen", &v, &candidates).expect("run should not error");
    let passed: usize = result.groups.iter().map(|g| g.passed).sum();
    assert!(passed >= candidates.entries.len());
    assert_eq!(result.groups[0].name, "tg0");
    assert_eq!(result.acvp_mode, "sigGen");
}

#[test]
fn mldsa87_sigver_correct_testpassed_passes() {
    let v = sigver_vectors();
    let candidates = expected_candidates(&v, &["testPassed"], 3);
    assert!(!candidates.entries.is_empty());
    let result = run("ML-DSA-87", "sigVer", &v, &candidates).expect("run should not error");
    let passed: usize = result.groups.iter().map(|g| g.passed).sum();
    assert!(passed >= candidates.entries.len());
    assert_eq!(result.vector_source.set_version, "unknown");
}

#[test]
fn mldsa87_sigver_wrong_testpassed_fails_with_tc_id() {
    let v = sigver_vectors();
    let mut candidates = expected_candidates(&v, &["testPassed"], 1);
    let tc_id = candidates.entries[0].0.clone();
    let original = candidates.entries[0].1.bools[0].1;
    candidates.entries[0].1.bools = vec![("testPassed".to_string(), !original)];
    let result = run("ML-DSA-87", "sigVer", &v, &candidates).expect("run should not error");
    let tc_num: u64 = tc_id.parse().unwrap();
    let f = result.failures.iter().find(|f| f.tc_id == tc_num && f.field == "testPassed").expect("failure");
    assert_eq!(f.expected, "true");
    assert_eq!(f.got, "false");
}

#[test]
fn unsupported_pairs_and_missing_groups_are_refused() {
    let v = keygen_vectors();
    let none = CandidateOutputs { entries: vec![] };
    let err = run("ML-DSA-44", "sigGen", &v, &none).unwrap_err();
    assert_eq!(err.0, E_RULESET_INVALID);
    assert_eq!(
        err.1,
        "ML-DSA: unsupported parameter_set/mode \"ML-DSA-44/sigGen\". Supported: ML-DSA-44/keyGen, ML-DSA-65/sigGen, ML-DSA-87/sigVer"
    );
    let empty = VectorSet { vs_id: None, test_groups: None };
    let err = verify_fields("ML-DSA", "ML-DSA-44", "keyGen", &empty, &vec!["pk".to_string()], &none).unwrap_err();
    assert_eq!(err.1, "bundled vector JSON missing testGroups");
}
