use seawall::builtins::load_builtins;
use seawall::findings::Finding;
use seawall::rules::Language;
use seawall::scanner::Scanner;
use seawall::parse::parse_source;
use seawall::syntax::SyntaxTree;

const MAIN_RS: &str = r####"// Fixture: Rust crypto API calls for seawall scanner tests.
#![allow(unused_variables, dead_code)]

use aes_gcm::{Aes128Gcm, Aes256Gcm};
use chacha20poly1305::ChaCha20Poly1305;
use ed25519_dalek::SigningKey;
use ring::signature::{EcdsaKeyPair, Ed25519KeyPair};
use rsa::RsaPrivateKey;
use rustls::ClientConfig;
use sha2::Sha256;

// RST-001 / CRYPTO-500 — ring EcdsaKeyPair::generate_pkcs8
fn ring_ecdsa_keygen() {
    let doc = EcdsaKeyPair::generate_pkcs8(&ECDSA_P256_SHA256_ASN1_SIGNING, &rng).unwrap();
}

// RST-002 / CRYPTO-501 — ring Ed25519KeyPair::generate_pkcs8
fn ring_ed25519_keygen() {
    let doc = Ed25519KeyPair::generate_pkcs8(&rng).unwrap();
}

// RST-010 / CRYPTO-510 — RustCrypto Aes256Gcm::new
fn aes256_gcm_new() {
    let cipher = Aes256Gcm::new(&key);
}

// RST-011 / CRYPTO-511 — RustCrypto Aes128Gcm::new
fn aes128_gcm_new() {
    let cipher = Aes128Gcm::new(&key);
}

// RST-020 / CRYPTO-520 — sha2 Sha256::new
fn sha256_hash() {
    let hasher = Sha256::new();
}

// RST-030 / CRYPTO-530 — ChaCha20Poly1305::new
fn chacha20_new() {
    let cipher = ChaCha20Poly1305::new(&key);
}

// RST-040 / CRYPTO-540 — rsa RsaPrivateKey::new (weak, 1024)
fn rsa_keygen_weak() {
    let priv_key = RsaPrivateKey::new(&mut rng, 1024).unwrap();
}

// RST-040 / CRYPTO-541 — rsa RsaPrivateKey::new (2048)
fn rsa_keygen_2048() {
    let priv_key = RsaPrivateKey::new(&mut rng, 2048).unwrap();
}

// RST-050 / CRYPTO-550 — ed25519_dalek SigningKey::generate
fn ed25519_dalek_keygen() {
    let signing_key = SigningKey::generate(&mut rng);
}

// RST-060 / CRYPTO-560 — rustls ClientConfig::builder
fn rustls_client_config() {
    let config = ClientConfig::builder();
}

fn main() {
    ring_ecdsa_keygen();
    ring_ed25519_keygen();
    aes256_gcm_new();
    aes128_gcm_new();
    sha256_hash();
    chacha20_new();
    rsa_keygen_weak();
    rsa_keygen_2048();
    ed25519_dalek_keygen();
    rustls_client_config();
}
"####;
const RUST_ADVANCED_RS: &str = r####"// Fixture: Rust call patterns the Phase 10 fixes address.
//
// Pre-Phase-10 fix, each line below produced zero findings even though
// the patterns are common in real-world Rust crypto consumer code. The
// V5 corpus run (RUST_COVERAGE_GAPS.md) cited specific file:line
// citations for each — every example here mirrors a real one.

use md5::Md5;
use rsa::{RsaPrivateKey, pkcs1v15::SigningKey};
use sha1::Sha1;
use sha2::{Sha256, Sha384, Sha512};

fn shapes(mut rng: impl rand::CryptoRng + rand::RngCore) {
    // BUG-A: qualified-path callee.
    // p256/p256/src/ecdsa.rs:118 - sha2::Sha384::digest(b"test")
    let _ = sha2::Sha256::digest(b"hello");    // CRYPTO-530 (suppressed inventory)
    let _ = sha2::Sha384::digest(b"hello");    // CRYPTO-531 (suppressed inventory)
    let _ = rustls::ClientConfig::builder();   // CRYPTO-560 (suppressed inventory)
    let _ = rustls::ServerConfig::builder();   // CRYPTO-561 (NEW, suppressed inventory)

    // BUG-B: RsaPrivateKey::new with runtime-variable bit size.
    // rsa/src/pkcs1v15/signing_key.rs:58 - RsaPrivateKey::new(rng, bit_size)
    let bits: usize = 2048;
    let _ = RsaPrivateKey::new(&mut rng, bits);  // CRYPTO-543 catch-all

    // BUG-C: rcgen::KeyPair::generate_for, used by rustls-webpki test utils.
    // rustls-webpki/src/test_utils.rs:7
    let _ = rcgen::KeyPair::generate_for(&rcgen::PKCS_ECDSA_P256_SHA256); // CRYPTO-570

    // BUG-F: turbofish-encoded hash in rsa SigningKey.
    // rsa/src/pkcs1v15.rs:468 - SigningKey::<Sha256>::new(priv_key)
    let priv_key = RsaPrivateKey::new(&mut rng, 2048).unwrap();
    let _ = SigningKey::<Sha256>::new(priv_key.clone()); // CRYPTO-544
    let _ = SigningKey::<Sha384>::new(priv_key.clone()); // CRYPTO-545
    let _ = SigningKey::<Sha512>::new(priv_key.clone()); // CRYPTO-546
    let _ = SigningKey::<Sha1>::new(priv_key);           // CRYPTO-548, was misrouted to CRYPTO-547's rsa-pkcs1-sha256 fallback

    // #Y29: openssl crate Rsa::generate — same non-literal-argument gap as
    // BUG-B, one crate over (competitors cycle 12).
    let _ = openssl::rsa::Rsa::generate(2048).unwrap(); // CRYPTO-591
    let _ = openssl::rsa::Rsa::generate(bits as u32).unwrap(); // CRYPTO-593 catch-all

    // md5/sha1 crates — same digest-trait shape as sha2's Sha256/384/512
    // above (BUG-A-adjacent gap: coverage existed for the sha2 family only).
    let _ = Md5::new();      // CRYPTO-956
    let _ = Md5::digest(b"hello");  // CRYPTO-956
    let _ = Sha1::new();     // CRYPTO-957
    let _ = Sha1::digest(b"hello"); // CRYPTO-957
}
"####;
const RCGEN_KEYPAIR_RS: &str = r####"// rcgen::KeyPair::generate_for — the algorithm is entirely the argument.
//
// One call shape selects ECDSA on three curves, Ed25519, RSA with three
// digests, or ML-DSA at all three parameter sets, so nothing about the callee
// decides the identity. The first two lines are the ones this fixture exists
// for: they had been reported as quantum-vulnerable ECDSA on code that has
// already migrated to FIPS 204.
//
// Shapes covered deliberately: `&rcgen::CONST`, a bare imported `CONST`, a
// `module::CONST` path, and three non-literals (a local, a struct field, a
// re-exported alias) that name no algorithm at this line.

use rcgen::{KeyPair, PKCS_ED25519, PKCS_RSA_SHA384};

fn migrated() {
    let ca = KeyPair::generate_for(&rcgen::PKCS_ML_DSA_44).unwrap();
    let ee = KeyPair::generate_for(&rcgen::PKCS_ML_DSA_87).unwrap();
    let mid = KeyPair::generate_for(&rcgen::PKCS_ML_DSA_65).unwrap();
}

fn classical() {
    let p256 = KeyPair::generate_for(&rcgen::PKCS_ECDSA_P256_SHA256).unwrap();
    let p384 = KeyPair::generate_for(&rcgen::PKCS_ECDSA_P384_SHA384).unwrap();
    // P-521 is offered with three digests; the curve is the same in all three.
    let p521 = KeyPair::generate_for(&rcgen::PKCS_ECDSA_P521_SHA256).unwrap();
    let ed = KeyPair::generate_for(PKCS_ED25519).unwrap();
    let rsa = KeyPair::generate_for(&PKCS_RSA_SHA384).unwrap();
}

fn not_stated_here(alg: &'static rcgen::SignatureAlgorithm) {
    let from_local = KeyPair::generate_for(alg).unwrap();
    let from_alias = KeyPair::generate_for(test_utils::RCGEN_SIGNATURE_ALG).unwrap();
    let from_field = KeyPair::generate_for(self.inner).unwrap();
}
"####;
const AWS_LC_RS_PQC_RS: &str = r####"// aws-lc-rs — DecapsulationKey::generate (ML-KEM) / PqdsaKeyPair::generate
// (ML-DSA). Both constructors take the parameter set as their sole argument
// — an associated constant, the same shape rcgen::KeyPair::generate_for
// uses — so nothing about the callee alone decides the identity.
//
// Shapes covered: `&module::CONST`, a bare imported `CONST`, and a local
// variable that names no algorithm at this line.

use aws_lc_rs::kem::{DecapsulationKey, ML_KEM_768};
use aws_lc_rs::signature::PqdsaKeyPair;

fn kem() {
    let k512 = DecapsulationKey::generate(&aws_lc_rs::kem::ML_KEM_512).unwrap();
    let k768 = DecapsulationKey::generate(&ML_KEM_768).unwrap();
    let k1024 = DecapsulationKey::generate(&aws_lc_rs::kem::ML_KEM_1024).unwrap();
}

fn sig() {
    let s44 = PqdsaKeyPair::generate(&aws_lc_rs::signature::ML_DSA_44_SIGNING).unwrap();
    let s65 = PqdsaKeyPair::generate(&aws_lc_rs::signature::ML_DSA_65_SIGNING).unwrap();
    let s87 = PqdsaKeyPair::generate(&aws_lc_rs::signature::ML_DSA_87_SIGNING).unwrap();
}

fn not_stated_here(alg: &'static aws_lc_rs::kem::Algorithm) {
    let from_local = DecapsulationKey::generate(alg).unwrap();
}
"####;
const OQS_PQC_RS: &str = r####"// oqs (liboqs-rust, open-quantum-safe/liboqs-rust on crates.io) —
// Kem::new(Algorithm) / Sig::new(Algorithm). Both constructors take the
// parameter set as their sole argument — an `Algorithm` enum variant, the
// same shape rcgen::KeyPair::generate_for and aws-lc-rs's constructors use
// — so nothing about the callee alone decides the identity.
//
// Shapes covered: a scoped enum variant and a local variable that names no
// algorithm at this line.

use oqs::kem::{Algorithm as KemAlgorithm, Kem};
use oqs::sig::{Algorithm as SigAlgorithm, Sig};

fn kem() {
    let k512 = Kem::new(KemAlgorithm::MlKem512).unwrap();
    let k768 = Kem::new(KemAlgorithm::MlKem768).unwrap();
    let k1024 = Kem::new(KemAlgorithm::MlKem1024).unwrap();
}

fn sig() {
    let s44 = Sig::new(SigAlgorithm::MlDsa44).unwrap();
    let s65 = Sig::new(SigAlgorithm::MlDsa65).unwrap();
    let s87 = Sig::new(SigAlgorithm::MlDsa87).unwrap();
}

fn not_stated_here(alg: KemAlgorithm) {
    let from_local = Kem::new(alg).unwrap();
}
"####;
const PBKDF2_USAGE_RS: &str = r####"// Fixture: pbkdf2 turbofish patterns (Phase 11).
//
// Pre-Phase-11 fix, these call sites produced zero findings. The pbkdf2
// crate uses two API shapes that both encode the hash algorithm in a
// turbofish generic. Phase 11 captures the turbofish content and routes
// to the right CRYPTO-580..587 rule based on the hash name.

use pbkdf2::{pbkdf2, pbkdf2_hmac};
use hmac::Hmac;
use sha2::{Sha256, Sha384, Sha512};

fn shapes(password: &[u8], salt: &[u8]) {
    let mut buf = [0u8; 32];

    // Shape 1: pbkdf2 generic-fn API.
    // pbkdf2/pbkdf2/benches/lib.rs:16 - pbkdf2::<Hmac<sha2::Sha256>>(...)
    pbkdf2::<Hmac<Sha256>>(password, salt, 600_000, &mut buf).unwrap();   // CRYPTO-580
    pbkdf2::<Hmac<Sha384>>(password, salt, 600_000, &mut buf).unwrap();   // CRYPTO-581
    pbkdf2::<Hmac<Sha512>>(password, salt, 210_000, &mut buf).unwrap();   // CRYPTO-582

    // Shape 2: pbkdf2_hmac free-function API.
    pbkdf2_hmac::<Sha256>(password, salt, 600_000, &mut buf);             // CRYPTO-584
    pbkdf2_hmac::<Sha384>(password, salt, 600_000, &mut buf);             // CRYPTO-585
    pbkdf2_hmac::<Sha512>(password, salt, 210_000, &mut buf);             // CRYPTO-586

    // Shape 3: fully qualified — `pbkdf2::pbkdf2_hmac::<Sha256>` —
    // normalize_rust_callee falls back to the last segment.
    pbkdf2::pbkdf2_hmac::<Sha256>(password, salt, 600_000, &mut buf);     // CRYPTO-584
}
"####;
const KX_GROUPS_RS: &str = r####"// Fixture: rustls TLS key-exchange group preference list (#Y62c).
//
// Two real shapes found by the corpus-B prevalence grep: a `CryptoProvider`
// field initializer (examples/limitedclient.rs) and a provider crate's own
// `DEFAULT_KX_GROUPS`/`ALL_KX_GROUPS` static list (rustls-ring,
// rustls-aws-lc-rs). Both wrap an array literal in `Cow::Borrowed`/
// `Cow::Owned`/a bare `&`.

use std::borrow::Cow;

pub mod kx_group {
    pub const X25519: u8 = 0;
    pub const SECP256R1: u8 = 1;
    pub const SECP384R1: u8 = 2;
    pub const X25519MLKEM768: u8 = 3;
}

struct CryptoProvider {
    kx_groups: Cow<'static, [u8]>,
}

// Shape 1: CryptoProvider { kx_groups: Cow::Borrowed(&[...]), .. }.
const PROVIDER: CryptoProvider = CryptoProvider {
    kx_groups: Cow::Borrowed(&[kx_group::X25519MLKEM768, kx_group::X25519]),
};

// Shape 2: a provider crate's own list definition.
pub static DEFAULT_KX_GROUPS: &[u8] = &[
    kx_group::X25519MLKEM768,
    kx_group::SECP256R1,
    kx_group::SECP384R1,
];

fn build(kx_groups: Vec<u8>) -> CryptoProvider {
    // An identifier passthrough, not an array literal — no group name is
    // visible at this site, so this must NOT fire.
    CryptoProvider {
        kx_groups: Cow::Owned(kx_groups),
    }
}

fn build_vec() -> CryptoProvider {
    // vec![...] macro bodies are a token tree, not structured elements — a
    // named, unclaimed gap, and this line must NOT fire either.
    CryptoProvider {
        kx_groups: Cow::Owned(vec![kx_group::X25519]),
    }
}

// A field named `kx_groups` on an unrelated struct still fires — the group
// name, not the struct type, carries the semantics, same as upstream naming
// this field consistently across every provider crate.
struct Unrelated {
    kx_groups: Cow<'static, [u8]>,
}
const OTHER: Unrelated = Unrelated {
    kx_groups: Cow::Borrowed(&[kx_group::SECP256R1]),
};

// Shape 3: `rustls_post_quantum::DEFAULT_PROVIDER`, referenced by its fully
// qualified path at a use site — not a field_initializer or a
// `KX_GROUPS`-named item, so it needs its own matcher.
mod rustls_post_quantum {
    pub const DEFAULT_PROVIDER: u8 = 0;
}

// A sibling crate's own classical-only const of the identical bare name —
// must NOT fire; only the fully qualified `rustls_post_quantum::` path is
// PQC here.
mod rustls_aws_lc_rs {
    pub const DEFAULT_PROVIDER: u8 = 0;
}

fn build_pq_config() -> u8 {
    rustls_post_quantum::DEFAULT_PROVIDER
}

fn build_classical_config() -> u8 {
    rustls_aws_lc_rs::DEFAULT_PROVIDER
}
"####;
const OPENMLS_CIPHERSUITE_RS: &str = r####"// Fixture: OpenMLS `Ciphersuite::MLS_*` hybrid/PQC ciphersuite enum variants
// (#Y114). Verified against openmls/traits/src/types.rs's `Ciphersuite`
// definition — a bare enum-variant path expression, not a call.

pub enum Ciphersuite {
    MLS_128_DHKEMX25519_AES128GCM_SHA256_Ed25519,
    MLS_256_XWING_CHACHA20POLY1305_SHA256_Ed25519,
    MLS_256_MLKEM1024_AES256GCM_SHA512_MLDSA87,
    MLS_128_MLKEM768X25519_AES128GCM_SHA256_Ed25519,
    MLS_128_MLKEM768_AES256GCM_SHA384_P256,
    MLS_192_MLKEM768_AES256GCM_SHA384_MLDSA65,
}

fn pick_hybrid() -> Ciphersuite {
    // X-Wing arm — must classify as x-wing, not ml-kem-1024/768.
    Ciphersuite::MLS_256_XWING_CHACHA20POLY1305_SHA256_Ed25519
}

fn pick_mlkem1024() -> Ciphersuite {
    Ciphersuite::MLS_256_MLKEM1024_AES256GCM_SHA512_MLDSA87
}

fn pick_mlkem768_x25519() -> Ciphersuite {
    // Must classify as x25519-mlkem768, not the plain ml-kem-768 arm below.
    Ciphersuite::MLS_128_MLKEM768X25519_AES128GCM_SHA256_Ed25519
}

fn pick_mlkem768_plain() -> Ciphersuite {
    Ciphersuite::MLS_128_MLKEM768_AES256GCM_SHA384_P256
}

fn pick_mlkem768_mldsa() -> Ciphersuite {
    Ciphersuite::MLS_192_MLKEM768_AES256GCM_SHA384_MLDSA65
}

fn pick_classical() -> Ciphersuite {
    // Classical-only variant — no MLKEM/XWING in the name, must NOT fire.
    Ciphersuite::MLS_128_DHKEMX25519_AES128GCM_SHA256_Ed25519
}
"####;

fn parse_rust(source: &str) -> SyntaxTree {
    parse_source(Language::Rust, source.as_bytes()).expect("a parsed tree is well formed")
}

fn scan(source: &str) -> Vec<Finding> {
    let b = load_builtins().unwrap();
    let scanner = Scanner::with_builtins(b.algorithms).expect("scanner builds");
    let mut out = Vec::new();
    scanner
        .scan_tree(Language::Rust, &parse_rust(source), "fixture.rs", &mut out)
        .expect("scan succeeds");
    out
}

fn rule_num(f: &Finding) -> u32 {
    f.rule_id.strip_prefix("CRYPTO-").and_then(|s| s.parse().ok()).unwrap_or(0)
}

fn ids(findings: &[Finding]) -> Vec<(&str, &str)> {
    findings.iter().map(|f| (f.rule_id.as_str(), f.algorithm_id.as_str())).collect()
}

#[test]
fn scans_rust_rsa_weak() {
    let findings = scan(MAIN_RS);
    assert!(!findings.is_empty(), "expected findings in Rust fixture, got none");
    assert!(
        findings.iter().any(|f| f.rule_id == "CRYPTO-540" && f.algorithm_id == "rsa-undersized"),
        "expected CRYPTO-540 (RSA-1024) in Rust fixture; got: {:?}",
        ids(&findings)
    );
}

#[test]
fn scans_rust_aes256gcm() {
    let findings = scan(MAIN_RS);
    assert!(findings.iter().any(|f| f.rule_id == "CRYPTO-510" && f.algorithm_id == "aes-256-gcm"));
}

#[test]
fn scans_rust_ed25519_dalek() {
    let findings = scan(MAIN_RS);
    assert!(findings.iter().any(|f| f.rule_id == "CRYPTO-550" && f.algorithm_id == "ed25519"));
}

#[test]
fn scans_rust_ring_ecdsa() {
    let findings = scan(MAIN_RS);
    assert!(findings.iter().any(|f| f.rule_id == "CRYPTO-500" && f.algorithm_id == "ecdsa-unattributed"));
}

#[test]
fn scans_rust_chacha20poly1305() {
    let findings = scan(MAIN_RS);
    assert!(findings.iter().any(|f| f.rule_id == "CRYPTO-530" && f.algorithm_id == "chacha20-poly1305"));
}

#[test]
fn scans_rust_kx_groups_list() {
    let findings = scan(KX_GROUPS_RS);
    let group_findings: Vec<_> = findings
        .iter()
        .filter(|f| f.rule_id.starts_with("CRYPTO-9") && (920..=931).contains(&rule_num(f)))
        .collect();
    for (algorithm_id, expected) in [
        ("x25519-mlkem768", 3),
        ("x25519", 1),
        ("secp256r1-mlkem768", 0),
        ("ecdh-p256", 2),
        ("ecdh-p384", 1),
    ] {
        let n = group_findings.iter().filter(|f| f.algorithm_id == algorithm_id).count();
        assert_eq!(n, expected, "expected {expected} finding(s) for {algorithm_id}, got {n}");
    }
    assert_eq!(group_findings.len(), 7);
}

#[test]
fn scans_rust_openmls_ciphersuite() {
    let findings = scan(OPENMLS_CIPHERSUITE_RS);
    let ciphersuite_findings: Vec<_> = findings
        .iter()
        .filter(|f| f.rule_id.starts_with("CRYPTO-1") && (1138..=1141).contains(&rule_num(f)))
        .collect();
    for (algorithm_id, expected) in [("x-wing", 1), ("ml-kem-1024", 1), ("x25519-mlkem768", 1), ("ml-kem-768", 2)] {
        let n = ciphersuite_findings.iter().filter(|f| f.algorithm_id == algorithm_id).count();
        assert_eq!(n, expected, "expected {expected} finding(s) for {algorithm_id}, got {n}");
    }
    assert_eq!(ciphersuite_findings.len(), 5);
}

#[test]
fn phase11_pbkdf2_generic_fn_routes_by_hash() {
    let findings = scan(PBKDF2_USAGE_RS);
    for (rule, algo) in [("CRYPTO-580", "sha-256"), ("CRYPTO-581", "sha-384"), ("CRYPTO-582", "sha-512")] {
        let f = findings
            .iter()
            .find(|f| f.rule_id == rule)
            .unwrap_or_else(|| panic!("{} must fire for pbkdf2::<Hmac<...>>, got: {:?}", rule, ids(&findings)));
        assert_eq!(f.algorithm_id, algo);
    }
}

#[test]
fn phase11_pbkdf2_hmac_freefn_routes_by_hash() {
    let findings = scan(PBKDF2_USAGE_RS);
    for (rule, algo) in [("CRYPTO-584", "sha-256"), ("CRYPTO-585", "sha-384"), ("CRYPTO-586", "sha-512")] {
        let f = findings
            .iter()
            .find(|f| f.rule_id == rule)
            .unwrap_or_else(|| panic!("{} must fire for pbkdf2_hmac::<...>, got: {:?}", rule, ids(&findings)));
        assert_eq!(f.algorithm_id, algo);
    }
}

#[test]
fn phase11_pbkdf2_qualified_callee_falls_back_to_last_segment() {
    let findings = scan(PBKDF2_USAGE_RS);
    let line28 = findings
        .iter()
        .find(|f| f.location.line == Some(28))
        .expect("expected a finding on line 28 (qualified pbkdf2::pbkdf2_hmac)");
    assert_eq!(line28.rule_id, "CRYPTO-584");
    assert_eq!(line28.algorithm_id, "sha-256");
}

#[test]
fn phase10_rust_qualified_sha_digest_normalizes() {
    let findings = scan(RUST_ADVANCED_RS);
    assert!(findings.iter().any(|f| f.rule_id == "CRYPTO-520"), "got: {:?}", ids(&findings));
    assert!(findings.iter().any(|f| f.rule_id == "CRYPTO-521"));
}

#[test]
fn rust_md5_sha1_crates_are_covered() {
    let findings = scan(RUST_ADVANCED_RS);
    assert!(findings.iter().any(|f| f.rule_id == "CRYPTO-956" && f.algorithm_id == "md5"));
    assert!(findings.iter().any(|f| f.rule_id == "CRYPTO-957" && f.algorithm_id == "sha-1"));
}

#[test]
fn phase10_rust_qualified_clientconfig_normalizes() {
    let findings = scan(RUST_ADVANCED_RS);
    assert!(findings.iter().any(|f| f.rule_id == "CRYPTO-560"));
}

#[test]
fn phase10_rust_serverconfig_builder_detected() {
    let findings = scan(RUST_ADVANCED_RS);
    assert!(findings.iter().any(|f| f.rule_id == "CRYPTO-561"), "got: {:?}", ids(&findings));
}

#[test]
fn phase10_rust_rsa_variable_bits_emits_catchall() {
    let findings = scan(RUST_ADVANCED_RS);
    let cr543 = findings
        .iter()
        .find(|f| f.rule_id == "CRYPTO-543")
        .expect("CRYPTO-543 must fire for variable bits");
    assert_eq!(cr543.algorithm_id, "rsa-unattributed");
    assert!(cr543.message.contains("runtime variable"), "message should mention runtime variable: {}", cr543.message);
}

#[test]
fn y29_rust_openssl_rsa_generate_literal_and_variable_bits() {
    let findings = scan(RUST_ADVANCED_RS);
    assert!(
        findings.iter().any(|f| f.rule_id == "CRYPTO-591" && f.algorithm_id == "rsa-2048"),
        "got: {:?}",
        ids(&findings)
    );
    let cr593 = findings
        .iter()
        .find(|f| f.rule_id == "CRYPTO-593")
        .expect("CRYPTO-593 catch-all must fire for variable bits");
    assert_eq!(cr593.algorithm_id, "rsa-unattributed");
}

#[test]
fn phase10_rust_rcgen_keypair_generate_for() {
    let findings = scan(RUST_ADVANCED_RS);
    let hit = findings
        .iter()
        .find(|f| f.rule_id == "CRYPTO-575")
        .expect("CRYPTO-575 must fire for rcgen::KeyPair::generate_for(PKCS_ECDSA_P256_*)");
    assert_eq!(hit.algorithm_id, "ecdsa-p256");
}

#[test]
fn phase10_rust_signingkey_turbofish_routes_to_hash() {
    let findings = scan(RUST_ADVANCED_RS);
    for (rule, algo) in [
        ("CRYPTO-544", "rsa-pkcs1-sha256"),
        ("CRYPTO-545", "rsa-pkcs1-sha384"),
        ("CRYPTO-546", "rsa-pkcs1-sha512"),
        ("CRYPTO-548", "rsa-pkcs1-sha1"),
    ] {
        let f = findings
            .iter()
            .find(|f| f.rule_id == rule)
            .unwrap_or_else(|| panic!("{} must fire for SigningKey::<...>::new, got: {:?}", rule, ids(&findings)));
        assert_eq!(f.algorithm_id, algo);
    }
}

#[test]
fn phase10_rust_main_fixture_unchanged() {
    let findings = scan(MAIN_RS);
    assert!(!findings.is_empty(), "main.rs must still produce findings");
}

#[test]
fn rcgen_generate_for_reads_the_signature_algorithm_argument() {
    let findings = scan(RCGEN_KEYPAIR_RS);
    let expected = [
        (16, "CRYPTO-571", "ml-dsa-44"),
        (17, "CRYPTO-573", "ml-dsa-87"),
        (18, "CRYPTO-572", "ml-dsa-65"),
        (22, "CRYPTO-575", "ecdsa-p256"),
        (23, "CRYPTO-576", "ecdsa-p384"),
        (25, "CRYPTO-577", "ecdsa-p521"),
        (26, "CRYPTO-574", "ed25519"),
        (27, "CRYPTO-579", "rsa-pkcs1-sha384"),
        (31, "CRYPTO-570", "ecdsa-unattributed"),
        (32, "CRYPTO-570", "ecdsa-unattributed"),
        (33, "CRYPTO-570", "ecdsa-unattributed"),
    ];
    let mut wrong = Vec::new();
    for (line, rule_id, algorithm_id) in expected {
        let hit = findings.iter().find(|f| f.location.line == Some(line));
        match hit {
            Some(f) if f.rule_id == rule_id && f.algorithm_id == algorithm_id => {}
            Some(f) => wrong.push(format!(
                "line {line}: expected {rule_id} → {algorithm_id}, got {} → {}",
                f.rule_id, f.algorithm_id
            )),
            None => wrong.push(format!("line {line}: no finding at all")),
        }
    }
    assert!(wrong.is_empty(), "{}/{} rcgen call sites misclassified:\n  {}", wrong.len(), expected.len(), wrong.join("\n  "));
    assert!(
        !findings.iter().any(|f| f.algorithm_id.starts_with("ecdsa") && f.message.contains("PKCS_ML_DSA")),
        "a call site naming an ML-DSA parameter set is classified as ECDSA"
    );
}

#[test]
fn scans_rust_aws_lc_rs_ml_kem_ml_dsa() {
    let findings = scan(AWS_LC_RS_PQC_RS);
    let expected = [
        (13, "CRYPTO-1069", "ml-kem-512"),
        (14, "CRYPTO-1070", "ml-kem-768"),
        (15, "CRYPTO-1071", "ml-kem-1024"),
        (19, "CRYPTO-1073", "ml-dsa-44"),
        (20, "CRYPTO-1074", "ml-dsa-65"),
        (21, "CRYPTO-1075", "ml-dsa-87"),
        (25, "CRYPTO-1072", "kem-unattributed"),
    ];
    let mut wrong = Vec::new();
    for (line, rule_id, algorithm_id) in expected {
        let hit = findings.iter().find(|f| f.location.line == Some(line));
        match hit {
            Some(f) if f.rule_id == rule_id && f.algorithm_id == algorithm_id => {}
            Some(f) => wrong.push(format!(
                "line {line}: expected {rule_id} → {algorithm_id}, got {} → {}",
                f.rule_id, f.algorithm_id
            )),
            None => wrong.push(format!("line {line}: no finding at all")),
        }
    }
    assert!(wrong.is_empty(), "{}/{} aws-lc-rs call sites misclassified:\n  {}", wrong.len(), expected.len(), wrong.join("\n  "));
}

#[test]
fn scans_rust_oqs_ml_kem_ml_dsa() {
    let findings = scan(OQS_PQC_RS);
    let expected = [
        (14, "CRYPTO-1142", "ml-kem-512"),
        (15, "CRYPTO-1143", "ml-kem-768"),
        (16, "CRYPTO-1144", "ml-kem-1024"),
        (20, "CRYPTO-1146", "ml-dsa-44"),
        (21, "CRYPTO-1147", "ml-dsa-65"),
        (22, "CRYPTO-1148", "ml-dsa-87"),
        (26, "CRYPTO-1145", "kem-unattributed"),
    ];
    let mut wrong = Vec::new();
    for (line, rule_id, algorithm_id) in expected {
        let hit = findings.iter().find(|f| f.location.line == Some(line));
        match hit {
            Some(f) if f.rule_id == rule_id && f.algorithm_id == algorithm_id => {}
            Some(f) => wrong.push(format!(
                "line {line}: expected {rule_id} → {algorithm_id}, got {} → {}",
                f.rule_id, f.algorithm_id
            )),
            None => wrong.push(format!("line {line}: no finding at all")),
        }
    }
    assert!(wrong.is_empty(), "{}/{} oqs call sites misclassified:\n  {}", wrong.len(), expected.len(), wrong.join("\n  "));
}
