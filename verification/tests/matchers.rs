use seawall::callee::{
    lookup, match_c_callee, match_csharp_callee, match_go_callee, match_java_callee,
    match_js_callee, match_python_callee, match_webcrypto_callee,
};
use seawall::extract::{ArgMap, ArgValue};
use seawall::literals::{detect_language, go_pq_signature_family, js_bare_import_module_prefix, unquote_js};
use seawall::rules::Language;
use seawall::rustpath::{extract_turbofish_inner, match_rust_callee, normalize_rust_callee};
use seawall::sitecheck::{
    callee_head, is_collection_membership_callee, is_equality_callee, is_map_insert_callee,
    is_registry_lookup_callee, is_test_assertion_callee,
};
use seawall::surface::{api_surface, java_enum_api_surface};
use seawall::tables::go_callee_apis;

fn str_arg(m: &ArgMap, key: &str) -> Option<String> {
    match m.get(key) {
        Some(ArgValue::Str(s)) => Some(s.clone()),
        _ => None,
    }
}

#[test]
fn go_rsa_generatekey_maps_to_its_api() {
    let (api, args) = match_go_callee("rsa.GenerateKey").expect("known callee");
    assert_eq!(api, "crypto/rsa.GenerateKey");
    assert!(args.entries.is_empty());
}

#[test]
fn go_md5_records_the_package() {
    let (api, args) = match_go_callee("md5.New").expect("known callee");
    assert_eq!(api, "crypto/md5_sha1.New");
    assert_eq!(str_arg(&args, "pkg").as_deref(), Some("md5"));
    let (_, args) = match_go_callee("sha1.Sum").expect("known callee");
    assert_eq!(str_arg(&args, "pkg").as_deref(), Some("sha1"));
}

#[test]
fn go_ecdh_curve_prefix_arm() {
    let (api, args) = match_go_callee("ecdh.P384").expect("curve constructor");
    assert_eq!(api, "crypto/ecdh.Curve");
    assert_eq!(str_arg(&args, "curve_fn").as_deref(), Some("P384"));
    assert!(match_go_callee("ecdh.P999").is_none());
    assert!(match_go_callee("fmt.Println").is_none());
}

#[test]
fn table_lookup_is_exact() {
    let t = go_callee_apis();
    assert_eq!(lookup(&t, "sha256.New"), Some("crypto/sha256.New"));
    assert_eq!(lookup(&t, "sha256.new"), None);
    assert_eq!(lookup(&t, ""), None);
}

#[test]
fn python_java_csharp_tables() {
    let (api, _) = match_python_callee("hashlib.md5").expect("hashlib.md5");
    assert_eq!(api, "hashlib.md5");
    assert!(match_python_callee("hashlib.blake2b").is_none());
    let (api, _) = match_java_callee("Cipher.getInstance").expect("Cipher");
    assert_eq!(api, "javax.crypto.Cipher.getInstance");
    let (api, _) = match_csharp_callee("MD5.Create").expect("MD5");
    assert_eq!(api, "System.Security.Cryptography.MD5.Create");
}

#[test]
fn c_callee_table() {
    let (api, _) = match_c_callee("RSA_generate_key_ex").expect("openssl");
    assert_eq!(api, "openssl.RSA_generate_key_ex");
    assert!(match_c_callee("printf").is_none());
}

#[test]
fn js_and_webcrypto_callees() {
    let (api, _) = match_js_callee("crypto.createHash").expect("createHash");
    assert_eq!(api, "node:crypto.createHash");
    assert_eq!(match_webcrypto_callee("crypto.subtle.generateKey"), Some("webcrypto.subtle.generateKey"));
    assert_eq!(match_webcrypto_callee("window.crypto.subtle.sign"), Some("webcrypto.subtle.sign"));
    assert_eq!(match_webcrypto_callee("subtle.digest"), None);
}

#[test]
fn rust_callee_normalisation() {
    assert_eq!(normalize_rust_callee("sha2::Sha256::digest"), "Sha256::digest");
    assert_eq!(normalize_rust_callee("SigningKey::<Sha256>::new"), "SigningKey::new");
    assert_eq!(normalize_rust_callee("pbkdf2_hmac"), "pbkdf2_hmac");
    assert_eq!(normalize_rust_callee("Hmac::<Hmac<Sha256>>::new_from_slice"), "Hmac::new_from_slice");
    assert_eq!(extract_turbofish_inner("pbkdf2::pbkdf2_hmac::<Sha256>"), Some("Sha256".to_string()));
    assert_eq!(extract_turbofish_inner("Foo::<>::new"), None);
    assert_eq!(extract_turbofish_inner("Foo::new"), None);
    let (api, _) = match_rust_callee("sha2::Sha256::digest").expect("sha2");
    assert_eq!(api, "rustcrypto.Sha256.digest");
}

#[test]
fn callee_heads() {
    assert_eq!(callee_head("Arrays.asList"), "asList");
    assert_eq!(callee_head("asList"), "asList");
    assert_eq!(callee_head("Set::<String>::of"), "of");
    assert_eq!(callee_head("java.util.List.<String>of"), "");
    assert!(is_equality_callee("alg.equalsIgnoreCase"));
    assert!(!is_equality_callee("alg.compareTo"));
    assert!(is_collection_membership_callee("SUPPORTED.add"));
    assert!(is_map_insert_callee("table.putIfAbsent"));
    assert!(!is_map_insert_callee("table.get"));
}

#[test]
fn registry_lookup_callees() {
    assert!(is_registry_lookup_callee("jwt.LookupSigningMethod"));
    assert!(is_registry_lookup_callee("lookupBuiltinSignatureAlgorithm"));
    assert!(is_registry_lookup_callee("a::LOOKUPx"));
    assert!(!is_registry_lookup_callee("jwt.GetSigningMethod"));
}

#[test]
fn test_assertion_callees_per_language() {
    assert!(is_test_assertion_callee("assert.Equal", Language::Go));
    assert!(is_test_assertion_callee("require.NoError", Language::Go));
    assert!(!is_test_assertion_callee("assert.Equal", Language::Java));
    assert!(is_test_assertion_callee("Assertions.assertEquals", Language::Java));
    assert!(is_test_assertion_callee("expect", Language::TypeScript));
    assert!(is_test_assertion_callee("self.assertRaises", Language::Python));
    assert!(is_test_assertion_callee("assert_eq", Language::Rust));
    assert!(is_test_assertion_callee("ExpectNull", Language::C));
    assert!(!is_test_assertion_callee("ExpectNotNull", Language::Cpp));
    assert!(is_test_assertion_callee("Assert.AreEqual", Language::CSharp));
}

#[test]
fn api_surface_is_sorted_unique_and_complete() {
    let s = api_surface();
    for w in s.windows(2) {
        assert!(w[0] < w[1], "{} !< {}", w[0], w[1]);
    }
    assert!(s.iter().any(|a| a == "crypto/rsa.GenerateKey"));
    assert!(s.iter().any(|a| a == "go.alg-switch.ES256"));
    assert!(s.iter().any(|a| a == "go.alg-register.none"));
    assert!(s.iter().any(|a| a == "openmls.Ciphersuite"));
    let enums = java_enum_api_surface();
    assert!(!enums.is_empty());
    for e in &enums {
        assert!(s.contains(e));
    }
}

#[test]
fn literal_helpers() {
    assert_eq!(unquote_js("\"sha256\""), "sha256");
    assert_eq!(unquote_js("`md5`"), "md5");
    assert_eq!(unquote_js("'it''s'"), "it''s");
    assert_eq!(go_pq_signature_family("github.com/cloudflare/circl/sign/dilithium/mode3"), Some("ML-DSA (circl dilithium)"));
    assert_eq!(go_pq_signature_family("github.com/cloudflare/circl/sign/slhdsa"), Some("SLH-DSA (circl slhdsa)"));
    assert_eq!(go_pq_signature_family("crypto/ed25519"), None);
    assert_eq!(js_bare_import_module_prefix("node:crypto"), Some("crypto"));
    assert_eq!(js_bare_import_module_prefix("jose"), Some("jose"));
    assert_eq!(js_bare_import_module_prefix("crypto-js"), None);
}

#[test]
fn language_from_path() {
    assert_eq!(detect_language("src/main.go"), Some(Language::Go));
    assert_eq!(detect_language("a/b/c.tsx"), Some(Language::TypeScript));
    assert_eq!(detect_language("x.hpp"), Some(Language::Cpp));
    assert_eq!(detect_language("Makefile"), None);
    assert_eq!(detect_language(".rs"), None);
    assert_eq!(detect_language("lib.rs"), Some(Language::Rust));
}
