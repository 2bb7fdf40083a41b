use seawall::algorithms::{AlgorithmRecord, AlgorithmTable, QuantumStatus};
use seawall::builtins::{load_builtins, LoadError};
use seawall::config::{
    default_cbom_out, default_exclude_paths, default_html_out, default_preset, default_sarif_out,
    default_scan_paths, default_summary_out, Config,
};
use seawall::deps::{build_symbol, catalogue, manifest_ecosystem, DepScanner, Ecosystem, RawDep};
use seawall::oid::{Determines, OidMapping, OidTable};
use seawall::policy::{Policy, RiskWeights};

#[test]
fn config_override_semantics() {
    let mut config = Config::default();
    config.policy.include_safe = true;
    config.diagnostics.show_errors = true;

    let cli_include_safe = false;
    let effective_include_safe = cli_include_safe || config.policy.include_safe;
    assert!(effective_include_safe);

    let cli_show_errors = false;
    let effective_show_errors = cli_show_errors || config.diagnostics.show_errors;
    assert!(effective_show_errors);
}

#[test]
fn config_defaults() {
    let c = Config::default();
    assert_eq!(c.scan.paths, vec!["src", "lib"]);
    assert_eq!(c.scan.exclude_paths, vec!["tests", "vendor", "target", "node_modules"]);
    assert!(c.scan.languages.is_empty());
    assert_eq!(c.output.html, "reports/seawall.html");
    assert_eq!(c.output.sarif, "reports/seawall.sarif");
    assert_eq!(c.output.cbom, "reports/seawall.cbom.json");
    assert_eq!(c.output.summary_json, "reports/seawall.summary.json");
    assert_eq!(c.policy.preset, "nist-default");
    assert!(!c.policy.include_safe);
    assert!(!c.diagnostics.show_errors);
    assert_eq!(default_scan_paths(), vec!["src", "lib"]);
    assert_eq!(default_exclude_paths().len(), 4);
    assert_eq!(default_html_out(), "reports/seawall.html");
    assert_eq!(default_sarif_out(), "reports/seawall.sarif");
    assert_eq!(default_cbom_out(), "reports/seawall.cbom.json");
    assert_eq!(default_summary_out(), "reports/seawall.summary.json");
    assert_eq!(default_preset(), "nist-default");
}

#[test]
fn builtins_load_and_cross_check() {
    let b = load_builtins().expect("builtins");
    assert!(b.oids.len() > 0);
    assert!(!b.oids.is_empty());
    assert!(b.oids.cross_check(&b.algorithms).is_ok());
    assert!(b.policy.cross_check(&b.algorithms).is_ok());
    assert!(b.policy.validate().is_ok());
}

#[test]
fn oid_lookup_reads_back_the_loaded_rows() {
    let b = load_builtins().expect("builtins");
    assert_eq!(b.oids.lookup("1.2.840.10045.3.1.7"), Some("ecdsa-p256"));
    assert_eq!(b.oids.lookup("2.16.840.1.101.3.4.2.1"), Some("sha-256"));
    assert_eq!(b.oids.lookup("9.9.9"), None);
}

fn row(oid: &str, alg: &str) -> OidMapping {
    OidMapping {
        oid: oid.to_string(),
        algorithm_id: alg.to_string(),
        determines: Determines::Algorithm,
        note: String::new(),
    }
}

#[test]
fn duplicate_oid_is_refused() {
    let r = OidTable::from_mappings(vec![row("1.2", "md5"), row("1.3", "sha-1"), row("1.2", "sha-256")]);
    match r {
        Err(LoadError::Invariant(msg)) => {
            assert_eq!(msg, "duplicate OID `1.2` (was `md5`, now `sha-256`)");
        }
        _ => panic!("expected an invariant error"),
    }
    let ok = OidTable::from_mappings(vec![row("1.2", "md5")]).expect("one row");
    assert_eq!(ok.len(), 1);
    let empty = OidTable::from_mappings(vec![]).expect("no rows");
    assert!(empty.is_empty());
}

#[test]
fn oid_cross_check_names_the_unknown_algorithm() {
    let t = OidTable::from_mappings(vec![row("1.2", "no-such-alg")]).unwrap();
    let algs = AlgorithmTable::from_builtin().unwrap();
    match t.cross_check(&algs) {
        Err(LoadError::Invariant(msg)) => {
            assert_eq!(msg, "OID `1.2` references unknown algorithm `no-such-alg`")
        }
        _ => panic!("expected an invariant error"),
    }
}

#[test]
fn algorithm_table_refuses_a_repeated_id() {
    let rec = |id: &str| AlgorithmRecord { id: id.to_string(), quantum_status: QuantumStatus::QuantumSafe, display_name: id.to_string(), notes: String::new(), fips: None, replacement: None, oid: None };
    assert!(AlgorithmTable::from_records(vec![rec("a"), rec("a")]).is_none());
    let t = AlgorithmTable::from_records(vec![rec("a"), rec("b")]).unwrap();
    assert!(t.contains("b"));
    assert!(!t.contains("c"));
    assert_eq!(t.id_list(), vec!["a", "b"]);
}

#[test]
fn risk_weight_sum() {
    let w = RiskWeights {
        algorithm_vulnerability: 255,
        usage_context: 255,
        data_shelf_life: 255,
        exposure: 255,
        detection_confidence: 255,
    };
    assert_eq!(w.sum(), 1275);
}

#[test]
fn presets() {
    assert_eq!(Policy::preset_names(), vec!["nist-default", "nsa-cnsa2"]);
    let nist = Policy::from_builtin().expect("default policy");
    assert_eq!(nist.meta.name, "nist-default");
    assert!(!nist.disallows("aes-128-gcm"));
    let cnsa = Policy::from_preset("nsa-cnsa2").expect("preset").expect("valid");
    assert!(cnsa.disallows("aes-128-gcm"));
    assert!(cnsa.disallows("sha-256"));
    assert!(!cnsa.disallows("aes-256-gcm"));
    assert!(Policy::from_preset("house-rules").is_none());
}

#[test]
fn validate_rejects_each_broken_invariant() {
    let good = Policy::from_builtin().unwrap();

    let mut p = good.clone();
    p.risk_weights.exposure += 1;
    match p.validate() {
        Err(LoadError::Invariant(msg)) => assert_eq!(msg, "risk_weights sum to 101, expected 100"),
        _ => panic!("sum"),
    }

    let mut p = good.clone();
    p.severity_bands.high = p.severity_bands.critical;
    assert!(p.validate().is_err());

    let mut p = good.clone();
    p.algorithm_vulnerability.retain(|(s, _)| *s != QuantumStatus::PqcDraft);
    assert!(p.validate().is_err());

    let mut p = good.clone();
    p.shelf_life_tags.push(("**/x/**".to_string(), "forever".to_string()));
    match p.validate() {
        Err(LoadError::Invariant(msg)) => assert_eq!(msg, "shelf_life_tags[**/x/**] = `forever` is not a known bucket"),
        _ => panic!("tag"),
    }

    let mut p = good.clone();
    p.shelf_life_default.bucket = "eternal".to_string();
    assert!(p.validate().is_err());
}

#[test]
fn policy_cross_check_catches_unknown_ids() {
    let algs = AlgorithmTable::from_builtin().unwrap();
    let mut p = Policy::from_builtin().unwrap();
    p.deprecation.policy_disallowed.push("aes-999".to_string());
    match p.cross_check(&algs) {
        Err(LoadError::Invariant(msg)) => assert_eq!(
            msg,
            "policy.policy_disallowed contains `aes-999` which is not in the algorithm table"
        ),
        _ => panic!("expected an invariant error"),
    }
}

#[test]
fn ecosystem_labels_and_symbols() {
    assert_eq!(Ecosystem::Rust.label(), "cargo");
    assert_eq!(Ecosystem::JavaScript.label(), "npm");
    assert_eq!(build_symbol(Ecosystem::Maven, "org.bouncycastle:bcprov-jdk18on"), "maven:org.bouncycastle:bcprov-jdk18on");
    assert_eq!(build_symbol(Ecosystem::Go, "golang.org/x/crypto"), "go:golang.org/x/crypto");
}

fn dep(name: &str, version: &str, line: u32) -> RawDep {
    RawDep { name: name.to_string(), version: version.to_string(), line, snippet: format!("{name} = \"{version}\"") }
}

#[test]
fn manifest_dependencies_raise_catalogue_findings() {
    let s = DepScanner::with_builtins().expect("catalogue compiles");
    let deps = vec![dep("sha2", "0.10", 3), dep("serde", "1", 4), dep("ring", "", 5), dep("ringo", "1", 6)];
    let f = s.scan_manifest("Cargo.toml", Ecosystem::Rust, &deps);
    assert_eq!(f.len(), 2);
    assert_eq!(f[0].rule_id, "DEP-001");
    assert_eq!(f[0].algorithm_id, "sha-256");
    assert_eq!(f[0].location.line, Some(3));
    assert_eq!(f[0].location.symbol.as_deref(), Some("cargo:sha2"));
    assert_eq!(f[0].message, "cargo package sha2 0.10 matches catalogue entry: sha2 — SHA-224/256/384/512 (RustCrypto)");
    assert_eq!(f[1].algorithm_id, "unknown");
    assert!(f[1].message.contains("(unknown version)"));
    let none = s.scan_manifest("go.mod", Ecosystem::Go, &vec![dep("ring", "1", 1)]);
    assert!(none.is_empty());
    let jwt = s.scan_manifest("go.mod", Ecosystem::Go, &vec![dep("github.com/golang-jwt/jwt/v5", "v5.2.0", 7)]);
    assert_eq!(jwt.len(), 1);
    assert!(catalogue().len() >= 45);
}

#[test]
fn manifest_file_names_pick_their_ecosystem() {
    assert_eq!(manifest_ecosystem("go.mod"), Some(Ecosystem::Go));
    assert_eq!(manifest_ecosystem("Cargo.toml"), Some(Ecosystem::Rust));
    assert_eq!(manifest_ecosystem("requirements.txt"), Some(Ecosystem::Python));
    assert_eq!(manifest_ecosystem("package.json"), Some(Ecosystem::JavaScript));
    assert_eq!(manifest_ecosystem("pom.xml"), Some(Ecosystem::Maven));
    assert_eq!(manifest_ecosystem("cargo.toml"), None);
    assert_eq!(manifest_ecosystem("go.sum"), None);
}

#[test]
fn every_preset_loads_and_cross_checks() {
    let b = load_builtins().expect("builtins");
    for name in Policy::preset_names() {
        let policy = Policy::from_preset(name)
            .unwrap_or_else(|| panic!("`{name}` is listed but not built in"))
            .unwrap_or_else(|e| panic!("preset `{name}` failed to load: {e:?}"));
        assert_eq!(policy.meta.name, name, "meta.name must equal the preset key");
        policy
            .cross_check(&b.algorithms)
            .unwrap_or_else(|e| panic!("preset `{name}` names an unknown algorithm: {e:?}"));
        assert!(!policy.meta.source_url.is_empty(), "preset `{name}` must cite a primary source");
    }
}

#[test]
fn nist_default_preset_is_the_builtin_default() {
    let default = Policy::from_builtin().expect("builtin");
    let preset = Policy::from_preset("nist-default").expect("listed").expect("loads");
    assert_eq!(default.meta.name, preset.meta.name);
    assert_eq!(default.deprecation.policy_disallowed, preset.deprecation.policy_disallowed);
    assert!(default.deprecation.policy_disallowed.is_empty(), "nist-default must take no jurisdiction-specific position");
    assert_eq!(default.severity_bands.critical, preset.severity_bands.critical);
}

#[test]
fn cnsa2_leaves_approved_algorithms_alone() {
    let b = load_builtins().expect("builtins");
    let cnsa2 = Policy::from_preset("nsa-cnsa2").expect("listed").expect("loads");
    for id in ["aes-256-gcm", "sha-384", "sha-512", "ml-kem-1024", "ml-dsa-87"] {
        assert!(!cnsa2.disallows(id), "{id} is on the CNSA 2.0 approved list and must not be disallowed");
        assert!(b.algorithms.get(id).is_some(), "{id} must exist in the table");
    }
    for id in ["aes-128-gcm", "sha-256", "fn-dsa-512", "ml-kem-768"] {
        assert!(cnsa2.disallows(id), "{id} is off the CNSA 2.0 suite");
    }
}

#[test]
fn a_policy_tagging_a_glob_twice_is_refused() {
    let mut p = Policy::from_preset("nist-default").unwrap().unwrap();
    assert!(p.validate().is_ok());
    let first = p.shelf_life_tags[0].clone();
    p.shelf_life_tags.push(first);
    assert!(matches!(p.validate(), Err(LoadError::Invariant(_))));
}

#[test]
fn a_policy_weighing_a_status_twice_is_refused() {
    let mut p = Policy::from_preset("nsa-cnsa2").unwrap().unwrap();
    p.algorithm_vulnerability.push((QuantumStatus::PqcDraft, 5));
    assert!(matches!(p.validate(), Err(LoadError::Invariant(_))));
}

#[test]
fn load_builtins_returns_the_three_builtin_tables() {
    let b = load_builtins().expect("the built-in data loads");
    assert_eq!(b.policy.meta.name, "nist-default");
    assert!(b.algorithms.get("rsa-2048").is_some());
    assert!(b.oids.len() > 0);
}
