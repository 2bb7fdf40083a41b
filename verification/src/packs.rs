//! The built-in rule packs, one per language family. Each pack is checked
//! against the rule-pack invariants when it is built, so a pack handed out
//! always keeps them.
use vstd::prelude::*;
use crate::rules::{ArgMatch, ArgMatchV, ClassifyRule, ExtractRow, ExtractRule, LoadError, RangeMatch, RegexMatch, RuleRow, RulePack, WhenClause, arg_match_view, args_view, extract_row, extract_rows, lemma_pack_wf_by_rows, pack_wf, rule_row, rule_rows, rows_loadable, severity_hint_allowed};
use crate::text::owned;

verus! {

/// A classify row that tests only the api pattern.
pub open spec fn rule_of(id: Seq<char>, api: Seq<char>, algorithm_id: Seq<char>, severity_hint: Seq<char>, message: Seq<char>, cwe: Seq<char>) -> RuleRow {
    RuleRow {
        id,
        api,
        args: Seq::empty(),
        site_context: None,
        imports: None,
        algorithm_id,
        severity_hint,
        message,
        cwe: Some(cwe),
        parameter_source: None,
    }
}

/// The row with one more argument predicate, tested after the others.
pub open spec fn rule_with_arg(r: RuleRow, capture: Seq<char>, m: ArgMatchV) -> RuleRow {
    RuleRow {
        id: r.id,
        api: r.api,
        args: r.args.push((capture, m)),
        site_context: r.site_context,
        imports: r.imports,
        algorithm_id: r.algorithm_id,
        severity_hint: r.severity_hint,
        message: r.message,
        cwe: r.cwe,
        parameter_source: r.parameter_source,
    }
}

/// A capture equal to `s`.
pub open spec fn exact_text(s: Seq<char>) -> ArgMatchV {
    ArgMatchV::ExactStr(s)
}

/// A capture the pattern `s` matches.
pub open spec fn regex_text(s: Seq<char>) -> ArgMatchV {
    ArgMatchV::Regex(s)
}

/// An integer strictly below `n`.
pub open spec fn range_below(n: i64) -> ArgMatchV {
    ArgMatchV::Range(RangeMatch { lt: Some(n), le: None, gt: None, ge: None })
}

/// An integer strictly between `lo` and `hi`.
pub open spec fn range_between(lo: i64, hi: i64) -> ArgMatchV {
    ArgMatchV::Range(RangeMatch { lt: Some(hi), le: None, gt: Some(lo), ge: None })
}

/// An extract row with no capture renames.
pub open spec fn extract_of(id: Seq<char>, language: Seq<char>, query: Seq<char>, api: Seq<char>, description: Seq<char>) -> ExtractRow {
    ExtractRow { id, language, query, captures: Seq::empty(), api, description }
}

/// The Go pack's extract rules, in order.
pub open spec fn go_extracts() -> Seq<ExtractRow> {
    seq![
        extract_of("go-rsa-generatekey"@, "go"@, CALL_QUERY@, "crypto/rsa.GenerateKey"@, "rsa.GenerateKey(rand.Reader, bits)"@),
        extract_of("go-ecdsa-generatekey"@, "go"@, CALL_QUERY@, "crypto/ecdsa.GenerateKey"@, "ecdsa.GenerateKey(elliptic.PNNN(), rand.Reader)"@),
        extract_of("go-ecdh-curve"@, "go"@, CALL_QUERY@, "crypto/ecdh.Curve"@, "ecdh.X25519() / ecdh.P256() ..."@),
    ]
}

/// The Go pack's classify rules, in order.
pub open spec fn go_rules() -> Seq<RuleRow> {
    seq![
        rule_with_arg(rule_of("CRYPTO-001"@, "^crypto/rsa\\.GenerateKey$"@, "rsa-undersized"@, "critical"@, "RSA key of {bits} bits is below the 2048-bit floor"@, "CWE-326"@), "bits"@, range_below(2048)),
        rule_with_arg(rule_of("CRYPTO-002"@, "^crypto/rsa\\.GenerateKey$"@, "rsa-2048"@, "high"@, "RSA-{bits} is quantum-vulnerable"@, "CWE-327"@), "bits"@, ArgMatchV::ExactInt(2048)),
        rule_with_arg(rule_of("CRYPTO-003"@, "^crypto/rsa\\.GenerateKey$"@, "rsa-3072"@, "high"@, "RSA-{bits} is quantum-vulnerable"@, "CWE-327"@), "bits"@, ArgMatchV::ExactInt(3072)),
        rule_with_arg(rule_of("CRYPTO-004"@, "^crypto/rsa\\.GenerateKey$"@, "rsa-4096"@, "high"@, "RSA-{bits} is quantum-vulnerable"@, "CWE-327"@), "bits"@, ArgMatchV::ExactInt(4096)),
        rule_with_arg(rule_of("CRYPTO-011"@, "^crypto/ecdsa\\.GenerateKey$"@, "ecdsa-p256"@, "high"@, "ECDSA over {curve_fn} is quantum-vulnerable"@, "CWE-327"@), "curve_fn"@, exact_text("P256"@)),
        rule_with_arg(rule_of("CRYPTO-012"@, "^crypto/ecdsa\\.GenerateKey$"@, "ecdsa-p384"@, "high"@, "ECDSA over {curve_fn} is quantum-vulnerable"@, "CWE-327"@), "curve_fn"@, exact_text("P384"@)),
        rule_with_arg(rule_of("CRYPTO-013"@, "^crypto/ecdsa\\.GenerateKey$"@, "ecdsa-p521"@, "high"@, "ECDSA over {curve_fn} is quantum-vulnerable"@, "CWE-327"@), "curve_fn"@, exact_text("P521"@)),
        rule_of("CRYPTO-021"@, "^crypto/ed25519\\.GenerateKey$"@, "ed25519"@, "high"@, "Ed25519 signatures are quantum-vulnerable"@, "CWE-327"@),
        rule_with_arg(rule_of("CRYPTO-032"@, "^crypto/ecdh\\.Curve$"@, "x25519"@, "high"@, "X25519 key agreement is quantum-vulnerable"@, "CWE-327"@), "curve_fn"@, exact_text("X25519"@)),
        rule_with_arg(rule_of("CRYPTO-033"@, "^crypto/ecdh\\.Curve$"@, "ecdh-p256"@, "high"@, "ECDH over {curve_fn} is quantum-vulnerable"@, "CWE-327"@), "curve_fn"@, exact_text("P256"@)),
        rule_with_arg(rule_of("CRYPTO-034"@, "^crypto/ecdh\\.Curve$"@, "ecdh-p384"@, "high"@, "ECDH over {curve_fn} is quantum-vulnerable"@, "CWE-327"@), "curve_fn"@, exact_text("P384"@)),
        rule_with_arg(rule_of("CRYPTO-035"@, "^crypto/ecdh\\.Curve$"@, "ecdh-p521"@, "high"@, "ECDH over {curve_fn} is quantum-vulnerable"@, "CWE-327"@), "curve_fn"@, exact_text("P521"@)),
        rule_with_arg(rule_of("CRYPTO-050"@, "^crypto/md5_sha1\\.(New|Sum)$"@, "md5"@, "critical"@, "MD5 is broken"@, "CWE-328"@), "pkg"@, exact_text("md5"@)),
        rule_with_arg(rule_of("CRYPTO-051"@, "^crypto/md5_sha1\\.(New|Sum)$"@, "sha-1"@, "critical"@, "SHA-1 is broken"@, "CWE-328"@), "pkg"@, exact_text("sha1"@)),
        rule_of("CRYPTO-130"@, "^crypto/des\\.NewTripleDESCipher$"@, "3des"@, "critical"@, "Triple DES is deprecated"@, "CWE-327"@),
        rule_of("CRYPTO-131"@, "^crypto/rc4\\.NewCipher$"@, "rc4"@, "critical"@, "RC4 is broken"@, "CWE-327"@),
        rule_of("CRYPTO-948"@, "^crypto/sha256\\.(New|Sum256)$"@, "sha-256"@, "low"@, "SHA-256 offers reduced margin against Grover search"@, "CWE-328"@),
        rule_of("CRYPTO-952"@, "^crypto/sha512\\.(New|Sum512)$"@, "sha-512"@, "low"@, "SHA-512 in use"@, "CWE-328"@),
    ]
}

/// The Python pack's extract rules, in order.
pub open spec fn python_extracts() -> Seq<ExtractRow> {
    seq![
        extract_of("py-rsa-generate"@, "python"@, "(call function: (attribute) @fn arguments: (argument_list) @args)"@, "cryptography.hazmat.rsa.generate_private_key"@, "rsa.generate_private_key(public_exponent=..., key_size=N)"@),
    ]
}

/// The Python pack's classify rules, in order.
pub open spec fn python_rules() -> Seq<RuleRow> {
    seq![
        rule_with_arg(rule_of("CRYPTO-101"@, "^cryptography\\.hazmat\\.rsa\\.generate_private_key$"@, "rsa-undersized"@, "critical"@, "RSA key of {key_size} bits is below the 2048-bit floor"@, "CWE-326"@), "key_size"@, range_below(2048)),
        rule_with_arg(rule_of("CRYPTO-102"@, "^cryptography\\.hazmat\\.rsa\\.generate_private_key$"@, "rsa-2048"@, "high"@, "RSA-{key_size} is quantum-vulnerable"@, "CWE-327"@), "key_size"@, ArgMatchV::ExactInt(2048)),
        rule_with_arg(rule_of("CRYPTO-103"@, "^cryptography\\.hazmat\\.rsa\\.generate_private_key$"@, "rsa-3072"@, "high"@, "RSA-{key_size} is quantum-vulnerable"@, "CWE-327"@), "key_size"@, ArgMatchV::ExactInt(3072)),
        rule_with_arg(rule_of("CRYPTO-111"@, "^cryptography\\.hazmat\\.ec\\.generate_private_key$"@, "ecdsa-p256"@, "high"@, "ECDSA over {curve_name} is quantum-vulnerable"@, "CWE-327"@), "curve_name"@, exact_text("SECP256R1"@)),
        rule_with_arg(rule_of("CRYPTO-112"@, "^cryptography\\.hazmat\\.ec\\.generate_private_key$"@, "ecdsa-p384"@, "high"@, "ECDSA over {curve_name} is quantum-vulnerable"@, "CWE-327"@), "curve_name"@, exact_text("SECP384R1"@)),
        rule_of("CRYPTO-140"@, "^hashlib\\.md5$"@, "md5"@, "critical"@, "MD5 is broken"@, "CWE-328"@),
        rule_of("CRYPTO-141"@, "^hashlib\\.sha1$"@, "sha-1"@, "critical"@, "SHA-1 is broken"@, "CWE-328"@),
        rule_of("CRYPTO-809"@, "^Crypto\\.Cipher\\.DES\\.new$"@, "des"@, "critical"@, "DES is broken"@, "CWE-327"@),
        rule_of("CRYPTO-810"@, "^Crypto\\.Cipher\\.DES3\\.new$"@, "3des"@, "critical"@, "Triple DES is deprecated"@, "CWE-327"@),
        rule_of("CRYPTO-150"@, "^cryptography\\.hazmat\\.mlkem\\.ml_kem_768$"@, "ml-kem-768"@, "auto"@, "ML-KEM-768 is quantum-safe"@, "CWE-327"@),
    ]
}

/// The Java pack's extract rules, in order.
pub open spec fn java_extracts() -> Seq<ExtractRow> {
    seq![
        extract_of("java-cipher-getinstance"@, "java"@, "(method_invocation object: (identifier) @cls name: (identifier) @fn arguments: (argument_list) @args)"@, "javax.crypto.Cipher.getInstance"@, "Cipher.getInstance(\"ALG/MODE/PADDING\")"@),
    ]
}

/// The Java pack's classify rules, in order.
pub open spec fn java_rules() -> Seq<RuleRow> {
    seq![
        rule_with_arg(rule_of("CRYPTO-200"@, "^javax\\.crypto\\.Cipher\\.getInstance$"@, "des"@, "critical"@, "DES is broken: {spec}"@, "CWE-327"@), "spec"@, regex_text("^DES(/|$)"@)),
        rule_with_arg(rule_of("CRYPTO-201"@, "^javax\\.crypto\\.Cipher\\.getInstance$"@, "aes-unattributed-ecb"@, "high"@, "ECB mode leaks plaintext structure: {spec}"@, "CWE-327"@), "spec"@, regex_text("^AES/ECB"@)),
        rule_with_arg(rule_of("CRYPTO-207"@, "^javax\\.crypto\\.Cipher\\.getInstance$"@, "aes-128-ecb"@, "high"@, "ECB mode leaks plaintext structure: {spec}"@, "CWE-327"@), "spec"@, regex_text("^AES_128/ECB"@)),
        rule_with_arg(rule_of("CRYPTO-210"@, "^java\\.security\\.KeyPairGenerator\\.getInstance$"@, "rsa-unattributed"@, "high"@, "RSA is quantum-vulnerable"@, "CWE-327"@), "algo"@, exact_text("RSA"@)),
        rule_with_arg(rule_of("CRYPTO-220"@, "^java\\.security\\.MessageDigest\\.getInstance$"@, "md5"@, "critical"@, "MD5 is broken"@, "CWE-328"@), "algo"@, exact_text("MD5"@)),
        rule_with_arg(rule_of("CRYPTO-221"@, "^java\\.security\\.MessageDigest\\.getInstance$"@, "sha-1"@, "critical"@, "SHA-1 is broken"@, "CWE-328"@), "algo"@, regex_text("^SHA-?1$"@)),
        rule_with_arg(rule_of("CRYPTO-222"@, "^java\\.security\\.MessageDigest\\.getInstance$"@, "sha-384"@, "low"@, "SHA-384 in use"@, "CWE-328"@), "algo"@, exact_text("SHA-384"@)),
    ]
}

/// The JavaScript/TypeScript pack's extract rules, in order.
pub open spec fn javascript_extracts() -> Seq<ExtractRow> {
    seq![
        extract_of("js-createhash"@, "javascript"@, CALL_QUERY@, "node:crypto.createHash"@, "crypto.createHash(\"alg\")"@),
    ]
}

/// The JavaScript/TypeScript pack's classify rules, in order.
pub open spec fn javascript_rules() -> Seq<RuleRow> {
    seq![
        rule_with_arg(rule_of("CRYPTO-300"@, "^node:crypto\\.createCipheriv$"@, "des"@, "critical"@, "DES is broken: {algo}"@, "CWE-327"@), "algo"@, regex_text("^des(-|$)"@)),
        rule_with_arg(rule_of("CRYPTO-310"@, "^node:crypto\\.createHash$"@, "md5"@, "critical"@, "MD5 is broken"@, "CWE-328"@), "algo"@, exact_text("md5"@)),
        rule_with_arg(rule_of("CRYPTO-311"@, "^node:crypto\\.createHash$"@, "sha-1"@, "critical"@, "SHA-1 is broken"@, "CWE-328"@), "algo"@, exact_text("sha1"@)),
        rule_with_arg(rule_of("CRYPTO-969"@, "^node:crypto\\.createHash$"@, "sha3-384"@, "low"@, "SHA3-384 in use"@, "CWE-328"@), "algo"@, exact_text("sha3-384"@)),
        rule_with_arg(rule_of("CRYPTO-320"@, "^node:crypto\\.generateKeyPair$"@, "rsa-unattributed"@, "high"@, "RSA is quantum-vulnerable"@, "CWE-327"@), "algo"@, exact_text("rsa"@)),
        rule_with_arg(rule_of("CRYPTO-321"@, "^node:crypto\\.generateKeyPair$"@, "ecdsa-unattributed"@, "high"@, "EC keys are quantum-vulnerable"@, "CWE-327"@), "algo"@, exact_text("ec"@)),
        rule_with_arg(rule_of("CRYPTO-340"@, "^jsonwebtoken\\.jwt\\.sign$"@, "ecdsa-p256"@, "high"@, "JWT signed with {algorithm}"@, "CWE-327"@), "algorithm"@, regex_text("^ES256$"@)),
        rule_with_arg(rule_of("CRYPTO-342"@, "^jsonwebtoken\\.jwt\\.sign$"@, "ecdsa-p384"@, "high"@, "JWT signed with {algorithm}"@, "CWE-327"@), "algorithm"@, regex_text("^ES384$"@)),
        rule_with_arg(rule_of("CRYPTO-345"@, "^jsonwebtoken\\.jwt\\.sign$"@, "jwt-alg-none"@, "critical"@, "JWT signed with no algorithm"@, "CWE-347"@), "algorithm"@, exact_text("none"@)),
    ]
}

/// The C/C++ pack's extract rules, in order.
pub open spec fn cpp_extracts() -> Seq<ExtractRow> {
    seq![
        extract_of("c-rsa-generate-key-ex"@, "c"@, CALL_QUERY@, "openssl.RSA_generate_key_ex"@, "RSA_generate_key_ex(rsa, bits, e, cb)"@),
    ]
}

/// The C/C++ pack's classify rules, in order.
pub open spec fn cpp_rules() -> Seq<RuleRow> {
    seq![
        rule_with_arg(rule_of("CRYPTO-400"@, "^openssl\\.RSA_generate_key_ex$"@, "rsa-undersized"@, "critical"@, "RSA key of {bits} bits is below the 2048-bit floor"@, "CWE-326"@), "bits"@, range_below(2048)),
        rule_with_arg(rule_of("CRYPTO-404"@, "^openssl\\.RSA_generate_key_ex$"@, "rsa-2048"@, "high"@, "RSA-{bits} is quantum-vulnerable"@, "CWE-327"@), "bits"@, ArgMatchV::ExactInt(2048)),
        rule_with_arg(rule_of("CRYPTO-407"@, "^openssl\\.RSA_generate_key_ex$"@, "rsa-unattributed"@, "high"@, "RSA-{bits} is quantum-vulnerable"@, "CWE-327"@), "bits"@, range_between(2048, 4096)),
        rule_with_arg(rule_of("CRYPTO-403"@, "^openssl\\.RSA_generate_key$"@, "rsa-undersized"@, "critical"@, "RSA key of {bits} bits is below the 2048-bit floor"@, "CWE-326"@), "bits"@, range_below(2048)),
        rule_with_arg(rule_of("CRYPTO-420"@, "^openssl\\.EVP_DigestInit_ex$"@, "md5"@, "critical"@, "MD5 is broken"@, "CWE-328"@), "digest_fn"@, exact_text("EVP_md5"@)),
        rule_with_arg(rule_of("CRYPTO-421"@, "^openssl\\.EVP_DigestInit_ex$"@, "sha-1"@, "critical"@, "SHA-1 is broken"@, "CWE-328"@), "digest_fn"@, exact_text("EVP_sha1"@)),
        rule_with_arg(rule_of("CRYPTO-440"@, "^openssl\\.EVP_EncryptInit_ex$"@, "aes-256-gcm"@, "low"@, "AES-256-GCM in use"@, "CWE-327"@), "cipher_fn"@, exact_text("EVP_aes_256_gcm"@)),
    ]
}

/// The Rust pack's extract rules, in order.
pub open spec fn rust_extracts() -> Seq<ExtractRow> {
    seq![
        extract_of("rs-rsa-new"@, "rust"@, CALL_QUERY@, "rsa.RsaPrivateKey.new"@, "RsaPrivateKey::new(&mut rng, bits)"@),
        extract_of("rs-rcgen-generate-for"@, "rust"@, CALL_QUERY@, "rcgen.KeyPair.generate_for"@, "KeyPair::generate_for(&SIG_ALG)"@),
        extract_of("rs-pbkdf2"@, "rust"@, CALL_QUERY@, "pbkdf2.pbkdf2"@, "pbkdf2::<Hmac<Sha256>>(...)"@),
    ]
}

/// The Rust pack's classify rules, in order.
pub open spec fn rust_rules() -> Seq<RuleRow> {
    seq![
        rule_of("CRYPTO-500"@, "^ring\\.EcdsaKeyPair\\.generate_pkcs8$"@, "ecdsa-unattributed"@, "high"@, "ring ECDSA key pair; the curve is in the signing algorithm argument"@, "CWE-327"@),
        rule_of("CRYPTO-501"@, "^ring\\.Ed25519KeyPair\\.generate_pkcs8$"@, "ed25519"@, "high"@, "Ed25519 signatures are quantum-vulnerable"@, "CWE-327"@),
        rule_of("CRYPTO-510"@, "^rustcrypto\\.Aes256Gcm\\.new$"@, "aes-256-gcm"@, "low"@, "AES-256-GCM in use"@, "CWE-327"@),
        rule_of("CRYPTO-511"@, "^rustcrypto\\.Aes128Gcm\\.new$"@, "aes-128-gcm"@, "medium"@, "AES-128 offers reduced margin against Grover search"@, "CWE-326"@),
        rule_of("CRYPTO-520"@, "^rustcrypto\\.Sha256\\.digest$"@, "sha-256"@, "low"@, "SHA-256 offers reduced margin against Grover search"@, "CWE-328"@),
        rule_of("CRYPTO-521"@, "^rustcrypto\\.Sha384\\.digest$"@, "sha-384"@, "low"@, "SHA-384 in use"@, "CWE-328"@),
        rule_of("CRYPTO-522"@, "^rustcrypto\\.Sha512\\.digest$"@, "sha-512"@, "low"@, "SHA-512 in use"@, "CWE-328"@),
        rule_of("CRYPTO-530"@, "^rustcrypto\\.ChaCha20Poly1305\\.new$"@, "chacha20-poly1305"@, "low"@, "ChaCha20-Poly1305 in use"@, "CWE-327"@),
        rule_with_arg(rule_of("CRYPTO-540"@, "^rsa\\.RsaPrivateKey\\.new$"@, "rsa-undersized"@, "critical"@, "RSA key of {bits} bits is below the 2048-bit floor"@, "CWE-326"@), "bits"@, range_below(2048)),
        rule_with_arg(rule_of("CRYPTO-541"@, "^rsa\\.RsaPrivateKey\\.new$"@, "rsa-2048"@, "high"@, "RSA-{bits} is quantum-vulnerable"@, "CWE-327"@), "bits"@, ArgMatchV::ExactInt(2048)),
        rule_with_arg(rule_of("CRYPTO-542"@, "^rsa\\.RsaPrivateKey\\.new$"@, "rsa-4096"@, "high"@, "RSA-{bits} is quantum-vulnerable"@, "CWE-327"@), "bits"@, ArgMatchV::ExactInt(4096)),
        rule_of("CRYPTO-543"@, "^rsa\\.RsaPrivateKey\\.new$"@, "rsa-unattributed"@, "high"@, "RSA key whose size is a runtime variable or not a listed literal; RSA is quantum-vulnerable"@, "CWE-327"@),
        rule_with_arg(rule_of("CRYPTO-544"@, "^rsa\\.SigningKey\\.new$"@, "rsa-pkcs1-sha256"@, "high"@, "RSA PKCS#1 v1.5 signing with {turbofish}"@, "CWE-327"@), "turbofish"@, regex_text("^(sha2::)?Sha256$"@)),
        rule_with_arg(rule_of("CRYPTO-545"@, "^rsa\\.SigningKey\\.new$"@, "rsa-pkcs1-sha384"@, "high"@, "RSA PKCS#1 v1.5 signing with {turbofish}"@, "CWE-327"@), "turbofish"@, regex_text("^(sha2::)?Sha384$"@)),
        rule_with_arg(rule_of("CRYPTO-546"@, "^rsa\\.SigningKey\\.new$"@, "rsa-pkcs1-sha512"@, "high"@, "RSA PKCS#1 v1.5 signing with {turbofish}"@, "CWE-327"@), "turbofish"@, regex_text("^(sha2::)?Sha512$"@)),
        rule_with_arg(rule_of("CRYPTO-548"@, "^rsa\\.SigningKey\\.new$"@, "rsa-pkcs1-sha1"@, "critical"@, "RSA PKCS#1 v1.5 signing with SHA-1"@, "CWE-328"@), "turbofish"@, regex_text("^(sha1::)?Sha1$"@)),
        rule_of("CRYPTO-547"@, "^rsa\\.SigningKey\\.new$"@, "rsa-pkcs1-sha256"@, "high"@, "RSA PKCS#1 v1.5 signing key"@, "CWE-327"@),
        rule_of("CRYPTO-550"@, "^ed25519_dalek\\.SigningKey\\.generate$"@, "ed25519"@, "high"@, "Ed25519 signatures are quantum-vulnerable"@, "CWE-327"@),
        rule_of("CRYPTO-560"@, "^rustls\\.ClientConfig\\.builder$"@, "tls-unattributed"@, "auto"@, "rustls client configuration; the key exchange is the provider's"@, "CWE-327"@),
        rule_of("CRYPTO-561"@, "^rustls\\.ServerConfig\\.builder$"@, "tls-unattributed"@, "auto"@, "rustls server configuration; the key exchange is the provider's"@, "CWE-327"@),
        rule_with_arg(rule_of("CRYPTO-571"@, "^rcgen\\.KeyPair\\.generate_for$"@, "ml-dsa-44"@, "low"@, "ML-DSA-44 key pair via rcgen ({sig_alg})"@, "CWE-327"@), "sig_alg"@, regex_text("^PKCS_ML_DSA_44$"@)),
        rule_with_arg(rule_of("CRYPTO-572"@, "^rcgen\\.KeyPair\\.generate_for$"@, "ml-dsa-65"@, "low"@, "ML-DSA-65 key pair via rcgen ({sig_alg})"@, "CWE-327"@), "sig_alg"@, regex_text("^PKCS_ML_DSA_65$"@)),
        rule_with_arg(rule_of("CRYPTO-573"@, "^rcgen\\.KeyPair\\.generate_for$"@, "ml-dsa-87"@, "low"@, "ML-DSA-87 key pair via rcgen ({sig_alg})"@, "CWE-327"@), "sig_alg"@, regex_text("^PKCS_ML_DSA_87$"@)),
        rule_with_arg(rule_of("CRYPTO-574"@, "^rcgen\\.KeyPair\\.generate_for$"@, "ed25519"@, "high"@, "Ed25519 key pair via rcgen"@, "CWE-327"@), "sig_alg"@, regex_text("^PKCS_ED25519$"@)),
        rule_with_arg(rule_of("CRYPTO-575"@, "^rcgen\\.KeyPair\\.generate_for$"@, "ecdsa-p256"@, "high"@, "ECDSA P-256 key pair via rcgen"@, "CWE-327"@), "sig_alg"@, regex_text("^PKCS_ECDSA_P256_SHA256$"@)),
        rule_with_arg(rule_of("CRYPTO-576"@, "^rcgen\\.KeyPair\\.generate_for$"@, "ecdsa-p384"@, "high"@, "ECDSA P-384 key pair via rcgen"@, "CWE-327"@), "sig_alg"@, regex_text("^PKCS_ECDSA_P384_SHA384$"@)),
        rule_with_arg(rule_of("CRYPTO-577"@, "^rcgen\\.KeyPair\\.generate_for$"@, "ecdsa-p521"@, "high"@, "ECDSA P-521 key pair via rcgen"@, "CWE-327"@), "sig_alg"@, regex_text("^PKCS_ECDSA_P521_SHA(256|384|512)$"@)),
        rule_with_arg(rule_of("CRYPTO-578"@, "^rcgen\\.KeyPair\\.generate_for$"@, "rsa-pkcs1-sha256"@, "high"@, "RSA key pair via rcgen ({sig_alg})"@, "CWE-327"@), "sig_alg"@, regex_text("^PKCS_RSA_SHA256$"@)),
        rule_with_arg(rule_of("CRYPTO-579"@, "^rcgen\\.KeyPair\\.generate_for$"@, "rsa-pkcs1-sha384"@, "high"@, "RSA key pair via rcgen ({sig_alg})"@, "CWE-327"@), "sig_alg"@, regex_text("^PKCS_RSA_SHA384$"@)),
        rule_of("CRYPTO-570"@, "^rcgen\\.KeyPair\\.generate_for$"@, "ecdsa-unattributed"@, "high"@, "rcgen key pair whose signature algorithm is not stated at the call site"@, "CWE-327"@),
        rule_with_arg(rule_of("CRYPTO-580"@, "^pbkdf2\\.pbkdf2$"@, "sha-256"@, "low"@, "PBKDF2 with {turbofish}"@, "CWE-916"@), "turbofish"@, regex_text("Sha256"@)),
        rule_with_arg(rule_of("CRYPTO-581"@, "^pbkdf2\\.pbkdf2$"@, "sha-384"@, "low"@, "PBKDF2 with {turbofish}"@, "CWE-916"@), "turbofish"@, regex_text("Sha384"@)),
        rule_with_arg(rule_of("CRYPTO-582"@, "^pbkdf2\\.pbkdf2$"@, "sha-512"@, "low"@, "PBKDF2 with {turbofish}"@, "CWE-916"@), "turbofish"@, regex_text("Sha512"@)),
        rule_with_arg(rule_of("CRYPTO-584"@, "^pbkdf2\\.pbkdf2_hmac$"@, "sha-256"@, "low"@, "PBKDF2-HMAC with {turbofish}"@, "CWE-916"@), "turbofish"@, regex_text("Sha256"@)),
        rule_with_arg(rule_of("CRYPTO-585"@, "^pbkdf2\\.pbkdf2_hmac$"@, "sha-384"@, "low"@, "PBKDF2-HMAC with {turbofish}"@, "CWE-916"@), "turbofish"@, regex_text("Sha384"@)),
        rule_with_arg(rule_of("CRYPTO-586"@, "^pbkdf2\\.pbkdf2_hmac$"@, "sha-512"@, "low"@, "PBKDF2-HMAC with {turbofish}"@, "CWE-916"@), "turbofish"@, regex_text("Sha512"@)),
        rule_with_arg(rule_of("CRYPTO-590"@, "^openssl\\.Rsa\\.generate$"@, "rsa-undersized"@, "critical"@, "RSA key of {bits} bits is below the 2048-bit floor"@, "CWE-326"@), "bits"@, range_below(2048)),
        rule_with_arg(rule_of("CRYPTO-591"@, "^openssl\\.Rsa\\.generate$"@, "rsa-2048"@, "high"@, "RSA-{bits} is quantum-vulnerable"@, "CWE-327"@), "bits"@, ArgMatchV::ExactInt(2048)),
        rule_with_arg(rule_of("CRYPTO-592"@, "^openssl\\.Rsa\\.generate$"@, "rsa-4096"@, "high"@, "RSA-{bits} is quantum-vulnerable"@, "CWE-327"@), "bits"@, ArgMatchV::ExactInt(4096)),
        rule_of("CRYPTO-593"@, "^openssl\\.Rsa\\.generate$"@, "rsa-unattributed"@, "high"@, "RSA key whose size is a runtime variable or not a listed literal; RSA is quantum-vulnerable"@, "CWE-327"@),
        rule_with_arg(rule_of("CRYPTO-920"@, "^rustls\\.CryptoProvider\\.kx_groups$"@, "x25519-mlkem768"@, "low"@, "Hybrid X25519MLKEM768 key exchange group"@, "CWE-327"@), "group"@, regex_text("^X25519MLKEM768$"@)),
        rule_with_arg(rule_of("CRYPTO-921"@, "^rustls\\.CryptoProvider\\.kx_groups$"@, "x25519"@, "high"@, "X25519 key exchange group is quantum-vulnerable"@, "CWE-327"@), "group"@, regex_text("^X25519$"@)),
        rule_with_arg(rule_of("CRYPTO-922"@, "^rustls\\.CryptoProvider\\.kx_groups$"@, "secp256r1-mlkem768"@, "low"@, "Hybrid SECP256R1MLKEM768 key exchange group"@, "CWE-327"@), "group"@, regex_text("^SECP256R1MLKEM768$"@)),
        rule_with_arg(rule_of("CRYPTO-923"@, "^rustls\\.CryptoProvider\\.kx_groups$"@, "ecdh-p256"@, "high"@, "ECDH over {group} is quantum-vulnerable"@, "CWE-327"@), "group"@, regex_text("^SECP256R1$"@)),
        rule_with_arg(rule_of("CRYPTO-924"@, "^rustls\\.CryptoProvider\\.kx_groups$"@, "ecdh-p384"@, "high"@, "ECDH over {group} is quantum-vulnerable"@, "CWE-327"@), "group"@, regex_text("^SECP384R1$"@)),
        rule_with_arg(rule_of("CRYPTO-925"@, "^rustls\\.CryptoProvider\\.kx_groups$"@, "ecdh-p521"@, "high"@, "ECDH over {group} is quantum-vulnerable"@, "CWE-327"@), "group"@, regex_text("^SECP521R1$"@)),
        rule_with_arg(rule_of("CRYPTO-1069"@, "^aws_lc_rs\\.kem\\.DecapsulationKey\\.generate$"@, "ml-kem-512"@, "low"@, "ML-KEM-512 key via aws-lc-rs"@, "CWE-327"@), "alg"@, regex_text("^ML_KEM_512$"@)),
        rule_with_arg(rule_of("CRYPTO-1070"@, "^aws_lc_rs\\.kem\\.DecapsulationKey\\.generate$"@, "ml-kem-768"@, "low"@, "ML-KEM-768 key via aws-lc-rs"@, "CWE-327"@), "alg"@, regex_text("^ML_KEM_768$"@)),
        rule_with_arg(rule_of("CRYPTO-1071"@, "^aws_lc_rs\\.kem\\.DecapsulationKey\\.generate$"@, "ml-kem-1024"@, "low"@, "ML-KEM-1024 key via aws-lc-rs"@, "CWE-327"@), "alg"@, regex_text("^ML_KEM_1024$"@)),
        rule_of("CRYPTO-1072"@, "^aws_lc_rs\\.kem\\.DecapsulationKey\\.generate$"@, "kem-unattributed"@, "low"@, "ML-KEM key via aws-lc-rs whose parameter set is not stated at the call site"@, "CWE-327"@),
        rule_with_arg(rule_of("CRYPTO-1073"@, "^aws_lc_rs\\.signature\\.PqdsaKeyPair\\.generate$"@, "ml-dsa-44"@, "low"@, "ML-DSA-44 key pair via aws-lc-rs"@, "CWE-327"@), "alg"@, regex_text("^ML_DSA_44_SIGNING$"@)),
        rule_with_arg(rule_of("CRYPTO-1074"@, "^aws_lc_rs\\.signature\\.PqdsaKeyPair\\.generate$"@, "ml-dsa-65"@, "low"@, "ML-DSA-65 key pair via aws-lc-rs"@, "CWE-327"@), "alg"@, regex_text("^ML_DSA_65_SIGNING$"@)),
        rule_with_arg(rule_of("CRYPTO-1075"@, "^aws_lc_rs\\.signature\\.PqdsaKeyPair\\.generate$"@, "ml-dsa-87"@, "low"@, "ML-DSA-87 key pair via aws-lc-rs"@, "CWE-327"@), "alg"@, regex_text("^ML_DSA_87_SIGNING$"@)),
        rule_with_arg(rule_of("CRYPTO-1138"@, "^openmls\\.Ciphersuite$"@, "x-wing"@, "low"@, "OpenMLS ciphersuite {variant} uses the X-Wing hybrid KEM"@, "CWE-327"@), "variant"@, regex_text("_XWING_"@)),
        rule_with_arg(rule_of("CRYPTO-1139"@, "^openmls\\.Ciphersuite$"@, "ml-kem-1024"@, "low"@, "OpenMLS ciphersuite {variant} uses ML-KEM-1024"@, "CWE-327"@), "variant"@, regex_text("_MLKEM1024_"@)),
        rule_with_arg(rule_of("CRYPTO-1140"@, "^openmls\\.Ciphersuite$"@, "x25519-mlkem768"@, "low"@, "OpenMLS ciphersuite {variant} uses the X25519MLKEM768 hybrid"@, "CWE-327"@), "variant"@, regex_text("_MLKEM768X25519_"@)),
        rule_with_arg(rule_of("CRYPTO-1141"@, "^openmls\\.Ciphersuite$"@, "ml-kem-768"@, "low"@, "OpenMLS ciphersuite {variant} uses ML-KEM-768"@, "CWE-327"@), "variant"@, regex_text("_MLKEM768_"@)),
        rule_with_arg(rule_of("CRYPTO-1142"@, "^oqs\\.kem\\.Kem\\.new$"@, "ml-kem-512"@, "low"@, "ML-KEM-512 via liboqs"@, "CWE-327"@), "alg"@, regex_text("^MlKem512$"@)),
        rule_with_arg(rule_of("CRYPTO-1143"@, "^oqs\\.kem\\.Kem\\.new$"@, "ml-kem-768"@, "low"@, "ML-KEM-768 via liboqs"@, "CWE-327"@), "alg"@, regex_text("^MlKem768$"@)),
        rule_with_arg(rule_of("CRYPTO-1144"@, "^oqs\\.kem\\.Kem\\.new$"@, "ml-kem-1024"@, "low"@, "ML-KEM-1024 via liboqs"@, "CWE-327"@), "alg"@, regex_text("^MlKem1024$"@)),
        rule_of("CRYPTO-1145"@, "^oqs\\.kem\\.Kem\\.new$"@, "kem-unattributed"@, "low"@, "KEM via liboqs whose parameter set is not stated at the call site"@, "CWE-327"@),
        rule_with_arg(rule_of("CRYPTO-1146"@, "^oqs\\.sig\\.Sig\\.new$"@, "ml-dsa-44"@, "low"@, "ML-DSA-44 via liboqs"@, "CWE-327"@), "alg"@, regex_text("^MlDsa44$"@)),
        rule_with_arg(rule_of("CRYPTO-1147"@, "^oqs\\.sig\\.Sig\\.new$"@, "ml-dsa-65"@, "low"@, "ML-DSA-65 via liboqs"@, "CWE-327"@), "alg"@, regex_text("^MlDsa65$"@)),
        rule_with_arg(rule_of("CRYPTO-1148"@, "^oqs\\.sig\\.Sig\\.new$"@, "ml-dsa-87"@, "low"@, "ML-DSA-87 via liboqs"@, "CWE-327"@), "alg"@, regex_text("^MlDsa87$"@)),
        rule_of("CRYPTO-956"@, "^rustcrypto\\.Md5\\.digest$"@, "md5"@, "critical"@, "MD5 is broken"@, "CWE-328"@),
        rule_of("CRYPTO-957"@, "^rustcrypto\\.Sha1\\.digest$"@, "sha-1"@, "critical"@, "SHA-1 is broken"@, "CWE-328"@),
    ]
}

/// The C# pack's extract rules, in order.
pub open spec fn csharp_extracts() -> Seq<ExtractRow> {
    seq![
        extract_of("cs-factory-create"@, "csharp"@, "(invocation_expression function: (member_access_expression) @fn arguments: (argument_list) @args)"@, "System.Security.Cryptography.MD5.Create"@, "MD5.Create()"@),
    ]
}

/// The C# pack's classify rules, in order.
pub open spec fn csharp_rules() -> Seq<RuleRow> {
    seq![
        rule_of("CRYPTO-600"@, "^System\\.Security\\.Cryptography\\.MD5\\.Create$"@, "md5"@, "critical"@, "MD5 is broken"@, "CWE-328"@),
        rule_of("CRYPTO-601"@, "^System\\.Security\\.Cryptography\\.SHA1\\.Create$"@, "sha-1"@, "critical"@, "SHA-1 is broken"@, "CWE-328"@),
        rule_of("CRYPTO-602"@, "^System\\.Security\\.Cryptography\\.SHA256\\.Create$"@, "sha-256"@, "low"@, "SHA-256 in use"@, "CWE-328"@),
        rule_of("CRYPTO-603"@, "^System\\.Security\\.Cryptography\\.SHA384\\.Create$"@, "sha-384"@, "low"@, "SHA-384 in use"@, "CWE-328"@),
        rule_of("CRYPTO-604"@, "^System\\.Security\\.Cryptography\\.SHA512\\.Create$"@, "sha-512"@, "low"@, "SHA-512 in use"@, "CWE-328"@),
        rule_of("CRYPTO-610"@, "^System\\.Security\\.Cryptography\\.DES\\.Create$"@, "des"@, "critical"@, "DES is broken"@, "CWE-327"@),
        rule_of("CRYPTO-611"@, "^System\\.Security\\.Cryptography\\.TripleDES\\.Create$"@, "3des"@, "critical"@, "Triple DES is deprecated"@, "CWE-327"@),
        rule_of("CRYPTO-620"@, "^System\\.Security\\.Cryptography\\.RSA\\.Create$"@, "rsa-unattributed"@, "high"@, "RSA is quantum-vulnerable"@, "CWE-327"@),
        rule_of("CRYPTO-621"@, "^System\\.Security\\.Cryptography\\.ECDsa\\.Create$"@, "ecdsa-unattributed"@, "high"@, "ECDSA is quantum-vulnerable"@, "CWE-327"@),
    ]
}


/// A classify rule that tests only the api pattern.
fn classify(id: &str, api: &str, algorithm_id: &str, severity_hint: &str, message: &str, cwe: &str) -> (r: ClassifyRule)
    ensures
        r.id@ == id@,
        r.when.api@ == api@,
        r.when.args@.len() == 0,
        r.when.site_context is None,
        r.when.imports is None,
        r.algorithm_id@ == algorithm_id@,
        r.severity_hint@ == severity_hint@,
        r.message@ == message@,
        r.cwe matches Some(c) && c@ == cwe@,
        r.parameter_source is None,
        rule_row(r) == rule_of(id@, api@, algorithm_id@, severity_hint@, message@, cwe@),
{
    let r = ClassifyRule {
        id: owned(id),
        when: WhenClause { api: owned(api), args: Vec::new(), site_context: None, imports: None },
        algorithm_id: owned(algorithm_id),
        severity_hint: owned(severity_hint),
        message: owned(message),
        cwe: Some(owned(cwe)),
        parameter_source: None,
    };
    assert(args_view(r.when.args@) =~= Seq::empty());
    r
}

/// The rule with one more argument predicate.
fn with_arg(r: ClassifyRule, capture: &str, predicate: ArgMatch) -> (out: ClassifyRule)
    ensures
        out.id == r.id,
        out.when.api == r.when.api,
        out.when.args@.len() == r.when.args@.len() + 1,
        out.when.args@.drop_last() == r.when.args@,
        out.when.args@.last().0@ == capture@,
        out.when.args@.last().1 == predicate,
        out.when.site_context == r.when.site_context,
        out.when.imports == r.when.imports,
        out.algorithm_id == r.algorithm_id,
        out.severity_hint == r.severity_hint,
        out.message == r.message,
        out.cwe == r.cwe,
        out.parameter_source == r.parameter_source,
        rule_row(out) == rule_with_arg(rule_row(r), capture@, arg_match_view(predicate)),
{
    let mut out = r;
    out.when.args.push((owned(capture), predicate));
    assert(args_view(out.when.args@) =~= args_view(r.when.args@).push((capture@, arg_match_view(predicate))));
    out
}

fn exact_str(s: &str) -> (m: ArgMatch)
    ensures
        m matches ArgMatch::ExactStr(t) && t@ == s@,
        arg_match_view(m) == exact_text(s@),
{
    ArgMatch::ExactStr(owned(s))
}

fn pattern(s: &str) -> (m: ArgMatch)
    ensures
        m matches ArgMatch::Regex(r) && r.regex@ == s@,
        arg_match_view(m) == regex_text(s@),
{
    ArgMatch::Regex(RegexMatch { regex: owned(s) })
}

fn below(n: i64) -> (m: ArgMatch)
    ensures
        m == ArgMatch::Range(RangeMatch { lt: Some(n), le: None, gt: None, ge: None }),
        arg_match_view(m) == range_below(n),
{
    ArgMatch::Range(RangeMatch { lt: Some(n), le: None, gt: None, ge: None })
}

fn between(lo: i64, hi: i64) -> (m: ArgMatch)
    ensures
        m == ArgMatch::Range(RangeMatch { lt: Some(hi), le: None, gt: Some(lo), ge: None }),
        arg_match_view(m) == range_between(lo, hi),
{
    ArgMatch::Range(RangeMatch { lt: Some(hi), le: None, gt: Some(lo), ge: None })
}

/// An extract rule documenting one call shape.
fn extract(id: &str, language: &str, query: &str, api: &str, description: &str) -> (r: ExtractRule)
    ensures
        r.id@ == id@,
        r.language@ == language@,
        r.query@ == query@,
        r.captures@.len() == 0,
        r.api@ == api@,
        r.description@ == description@,
        extract_row(r) == extract_of(id@, language@, query@, api@, description@),
{
    let r = ExtractRule {
        id: owned(id),
        language: owned(language),
        query: owned(query),
        captures: Vec::new(),
        api: owned(api),
        description: owned(description),
    };
    assert(r.captures@.map_values(|c: (String, String)| (c.0@, c.1@)) =~= Seq::empty());
    r
}

/// The error of a built-in pack that breaks a rule-pack invariant.
pub open spec fn broken_pack_message(name: Seq<char>) -> Seq<char> {
    "built-in rule pack breaks a rule-pack invariant: "@ + name
}

/// Hand out a pack only if it keeps the rule-pack invariants.
fn checked(extract: Vec<ExtractRule>, classify: Vec<ClassifyRule>, name: &str) -> (r: Result<RulePack, LoadError>)
    ensures
        r is Ok <==> rows_loadable(rule_rows(classify@)),
        r matches Ok(p) ==> pack_wf(p) && p.extract@ == extract@ && p.classify@ == classify@,
        r matches Err(e) ==> (e matches LoadError::Invariant(m) && m@ == broken_pack_message(name@)),
{
    let ghost rows = rule_rows(classify@);
    let pack = RulePack { extract, classify };
    if pack.audit() {
        assert(rule_rows(pack.classify@) == rows);
        Ok(pack)
    } else {
        assert forall|q: RulePack| rule_rows(q.classify@) == rows implies !#[trigger] pack_wf(q) by {
            lemma_pack_wf_by_rows(q, pack);
        }
        let mut msg = owned("built-in rule pack breaks a rule-pack invariant: ");
        msg.append(name);
        Err(LoadError::Invariant(msg))
    }
}

/// The tree-sitter query shared by the call-expression extract rules.
pub const CALL_QUERY: &'static str = "(call_expression function: (_) @fn arguments: (_) @args)";

impl RulePack {
    /// The built-in Go rule pack.
    pub fn builtin_go() -> (r: Result<RulePack, LoadError>)
        ensures
            r is Ok <==> rows_loadable(go_rules()),
            r matches Ok(p) ==> pack_wf(p) && rule_rows(p.classify@) == go_rules() && extract_rows(p.extract@) == go_extracts(),
            r matches Err(e) ==> (e matches LoadError::Invariant(m) && m@ == broken_pack_message("go"@)),
    {
        let ex = vec![
            extract("go-rsa-generatekey", "go", CALL_QUERY, "crypto/rsa.GenerateKey", "rsa.GenerateKey(rand.Reader, bits)"),
            extract("go-ecdsa-generatekey", "go", CALL_QUERY, "crypto/ecdsa.GenerateKey", "ecdsa.GenerateKey(elliptic.PNNN(), rand.Reader)"),
            extract("go-ecdh-curve", "go", CALL_QUERY, "crypto/ecdh.Curve", "ecdh.X25519() / ecdh.P256() ..."),
        ];
        let rsa = "^crypto/rsa\\.GenerateKey$";
        let ecdsa = "^crypto/ecdsa\\.GenerateKey$";
        let ecdh = "^crypto/ecdh\\.Curve$";
        let md = "^crypto/md5_sha1\\.(New|Sum)$";
        let cl = vec![
            with_arg(classify("CRYPTO-001", rsa, "rsa-undersized", "critical", "RSA key of {bits} bits is below the 2048-bit floor", "CWE-326"), "bits", below(2048)),
            with_arg(classify("CRYPTO-002", rsa, "rsa-2048", "high", "RSA-{bits} is quantum-vulnerable", "CWE-327"), "bits", ArgMatch::ExactInt(2048)),
            with_arg(classify("CRYPTO-003", rsa, "rsa-3072", "high", "RSA-{bits} is quantum-vulnerable", "CWE-327"), "bits", ArgMatch::ExactInt(3072)),
            with_arg(classify("CRYPTO-004", rsa, "rsa-4096", "high", "RSA-{bits} is quantum-vulnerable", "CWE-327"), "bits", ArgMatch::ExactInt(4096)),
            with_arg(classify("CRYPTO-011", ecdsa, "ecdsa-p256", "high", "ECDSA over {curve_fn} is quantum-vulnerable", "CWE-327"), "curve_fn", exact_str("P256")),
            with_arg(classify("CRYPTO-012", ecdsa, "ecdsa-p384", "high", "ECDSA over {curve_fn} is quantum-vulnerable", "CWE-327"), "curve_fn", exact_str("P384")),
            with_arg(classify("CRYPTO-013", ecdsa, "ecdsa-p521", "high", "ECDSA over {curve_fn} is quantum-vulnerable", "CWE-327"), "curve_fn", exact_str("P521")),
            classify("CRYPTO-021", "^crypto/ed25519\\.GenerateKey$", "ed25519", "high", "Ed25519 signatures are quantum-vulnerable", "CWE-327"),
            with_arg(classify("CRYPTO-032", ecdh, "x25519", "high", "X25519 key agreement is quantum-vulnerable", "CWE-327"), "curve_fn", exact_str("X25519")),
            with_arg(classify("CRYPTO-033", ecdh, "ecdh-p256", "high", "ECDH over {curve_fn} is quantum-vulnerable", "CWE-327"), "curve_fn", exact_str("P256")),
            with_arg(classify("CRYPTO-034", ecdh, "ecdh-p384", "high", "ECDH over {curve_fn} is quantum-vulnerable", "CWE-327"), "curve_fn", exact_str("P384")),
            with_arg(classify("CRYPTO-035", ecdh, "ecdh-p521", "high", "ECDH over {curve_fn} is quantum-vulnerable", "CWE-327"), "curve_fn", exact_str("P521")),
            with_arg(classify("CRYPTO-050", md, "md5", "critical", "MD5 is broken", "CWE-328"), "pkg", exact_str("md5")),
            with_arg(classify("CRYPTO-051", md, "sha-1", "critical", "SHA-1 is broken", "CWE-328"), "pkg", exact_str("sha1")),
            classify("CRYPTO-130", "^crypto/des\\.NewTripleDESCipher$", "3des", "critical", "Triple DES is deprecated", "CWE-327"),
            classify("CRYPTO-131", "^crypto/rc4\\.NewCipher$", "rc4", "critical", "RC4 is broken", "CWE-327"),
            classify("CRYPTO-948", "^crypto/sha256\\.(New|Sum256)$", "sha-256", "low", "SHA-256 offers reduced margin against Grover search", "CWE-328"),
            classify("CRYPTO-952", "^crypto/sha512\\.(New|Sum512)$", "sha-512", "low", "SHA-512 in use", "CWE-328"),
        ];
        assert(rule_rows(cl@) =~= go_rules());
        assert(extract_rows(ex@) =~= go_extracts());
        checked(ex, cl, "go")
    }

    /// The built-in Python rule pack.
    pub fn builtin_python() -> (r: Result<RulePack, LoadError>)
        ensures
            r is Ok <==> rows_loadable(python_rules()),
            r matches Ok(p) ==> pack_wf(p) && rule_rows(p.classify@) == python_rules() && extract_rows(p.extract@) == python_extracts(),
            r matches Err(e) ==> (e matches LoadError::Invariant(m) && m@ == broken_pack_message("python"@)),
    {
        let ex = vec![
            extract("py-rsa-generate", "python", "(call function: (attribute) @fn arguments: (argument_list) @args)", "cryptography.hazmat.rsa.generate_private_key", "rsa.generate_private_key(public_exponent=..., key_size=N)"),
        ];
        let rsa = "^cryptography\\.hazmat\\.rsa\\.generate_private_key$";
        let ec = "^cryptography\\.hazmat\\.ec\\.generate_private_key$";
        let cl = vec![
            with_arg(classify("CRYPTO-101", rsa, "rsa-undersized", "critical", "RSA key of {key_size} bits is below the 2048-bit floor", "CWE-326"), "key_size", below(2048)),
            with_arg(classify("CRYPTO-102", rsa, "rsa-2048", "high", "RSA-{key_size} is quantum-vulnerable", "CWE-327"), "key_size", ArgMatch::ExactInt(2048)),
            with_arg(classify("CRYPTO-103", rsa, "rsa-3072", "high", "RSA-{key_size} is quantum-vulnerable", "CWE-327"), "key_size", ArgMatch::ExactInt(3072)),
            with_arg(classify("CRYPTO-111", ec, "ecdsa-p256", "high", "ECDSA over {curve_name} is quantum-vulnerable", "CWE-327"), "curve_name", exact_str("SECP256R1")),
            with_arg(classify("CRYPTO-112", ec, "ecdsa-p384", "high", "ECDSA over {curve_name} is quantum-vulnerable", "CWE-327"), "curve_name", exact_str("SECP384R1")),
            classify("CRYPTO-140", "^hashlib\\.md5$", "md5", "critical", "MD5 is broken", "CWE-328"),
            classify("CRYPTO-141", "^hashlib\\.sha1$", "sha-1", "critical", "SHA-1 is broken", "CWE-328"),
            classify("CRYPTO-809", "^Crypto\\.Cipher\\.DES\\.new$", "des", "critical", "DES is broken", "CWE-327"),
            classify("CRYPTO-810", "^Crypto\\.Cipher\\.DES3\\.new$", "3des", "critical", "Triple DES is deprecated", "CWE-327"),
            classify("CRYPTO-150", "^cryptography\\.hazmat\\.mlkem\\.ml_kem_768$", "ml-kem-768", "auto", "ML-KEM-768 is quantum-safe", "CWE-327"),
        ];
        assert(rule_rows(cl@) =~= python_rules());
        assert(extract_rows(ex@) =~= python_extracts());
        checked(ex, cl, "python")
    }

    /// The built-in Java rule pack.
    pub fn builtin_java() -> (r: Result<RulePack, LoadError>)
        ensures
            r is Ok <==> rows_loadable(java_rules()),
            r matches Ok(p) ==> pack_wf(p) && rule_rows(p.classify@) == java_rules() && extract_rows(p.extract@) == java_extracts(),
            r matches Err(e) ==> (e matches LoadError::Invariant(m) && m@ == broken_pack_message("java"@)),
    {
        let ex = vec![
            extract("java-cipher-getinstance", "java", "(method_invocation object: (identifier) @cls name: (identifier) @fn arguments: (argument_list) @args)", "javax.crypto.Cipher.getInstance", "Cipher.getInstance(\"ALG/MODE/PADDING\")"),
        ];
        let cipher = "^javax\\.crypto\\.Cipher\\.getInstance$";
        let digest = "^java\\.security\\.MessageDigest\\.getInstance$";
        let cl = vec![
            with_arg(classify("CRYPTO-200", cipher, "des", "critical", "DES is broken: {spec}", "CWE-327"), "spec", pattern("^DES(/|$)")),
            with_arg(classify("CRYPTO-201", cipher, "aes-unattributed-ecb", "high", "ECB mode leaks plaintext structure: {spec}", "CWE-327"), "spec", pattern("^AES/ECB")),
            with_arg(classify("CRYPTO-207", cipher, "aes-128-ecb", "high", "ECB mode leaks plaintext structure: {spec}", "CWE-327"), "spec", pattern("^AES_128/ECB")),
            with_arg(classify("CRYPTO-210", "^java\\.security\\.KeyPairGenerator\\.getInstance$", "rsa-unattributed", "high", "RSA is quantum-vulnerable", "CWE-327"), "algo", exact_str("RSA")),
            with_arg(classify("CRYPTO-220", digest, "md5", "critical", "MD5 is broken", "CWE-328"), "algo", exact_str("MD5")),
            with_arg(classify("CRYPTO-221", digest, "sha-1", "critical", "SHA-1 is broken", "CWE-328"), "algo", pattern("^SHA-?1$")),
            with_arg(classify("CRYPTO-222", digest, "sha-384", "low", "SHA-384 in use", "CWE-328"), "algo", exact_str("SHA-384")),
        ];
        assert(rule_rows(cl@) =~= java_rules());
        assert(extract_rows(ex@) =~= java_extracts());
        checked(ex, cl, "java")
    }

    /// The built-in JavaScript/TypeScript rule pack.
    pub fn builtin_javascript() -> (r: Result<RulePack, LoadError>)
        ensures
            r is Ok <==> rows_loadable(javascript_rules()),
            r matches Ok(p) ==> pack_wf(p) && rule_rows(p.classify@) == javascript_rules() && extract_rows(p.extract@) == javascript_extracts(),
            r matches Err(e) ==> (e matches LoadError::Invariant(m) && m@ == broken_pack_message("javascript"@)),
    {
        let ex = vec![
            extract("js-createhash", "javascript", CALL_QUERY, "node:crypto.createHash", "crypto.createHash(\"alg\")"),
        ];
        let hash = "^node:crypto\\.createHash$";
        let keypair = "^node:crypto\\.generateKeyPair$";
        let sign = "^jsonwebtoken\\.jwt\\.sign$";
        let cl = vec![
            with_arg(classify("CRYPTO-300", "^node:crypto\\.createCipheriv$", "des", "critical", "DES is broken: {algo}", "CWE-327"), "algo", pattern("^des(-|$)")),
            with_arg(classify("CRYPTO-310", hash, "md5", "critical", "MD5 is broken", "CWE-328"), "algo", exact_str("md5")),
            with_arg(classify("CRYPTO-311", hash, "sha-1", "critical", "SHA-1 is broken", "CWE-328"), "algo", exact_str("sha1")),
            with_arg(classify("CRYPTO-969", hash, "sha3-384", "low", "SHA3-384 in use", "CWE-328"), "algo", exact_str("sha3-384")),
            with_arg(classify("CRYPTO-320", keypair, "rsa-unattributed", "high", "RSA is quantum-vulnerable", "CWE-327"), "algo", exact_str("rsa")),
            with_arg(classify("CRYPTO-321", keypair, "ecdsa-unattributed", "high", "EC keys are quantum-vulnerable", "CWE-327"), "algo", exact_str("ec")),
            with_arg(classify("CRYPTO-340", sign, "ecdsa-p256", "high", "JWT signed with {algorithm}", "CWE-327"), "algorithm", pattern("^ES256$")),
            with_arg(classify("CRYPTO-342", sign, "ecdsa-p384", "high", "JWT signed with {algorithm}", "CWE-327"), "algorithm", pattern("^ES384$")),
            with_arg(classify("CRYPTO-345", sign, "jwt-alg-none", "critical", "JWT signed with no algorithm", "CWE-347"), "algorithm", exact_str("none")),
        ];
        assert(rule_rows(cl@) =~= javascript_rules());
        assert(extract_rows(ex@) =~= javascript_extracts());
        checked(ex, cl, "javascript")
    }

    /// The built-in C/C++ rule pack.
    pub fn builtin_cpp() -> (r: Result<RulePack, LoadError>)
        ensures
            r is Ok <==> rows_loadable(cpp_rules()),
            r matches Ok(p) ==> pack_wf(p) && rule_rows(p.classify@) == cpp_rules() && extract_rows(p.extract@) == cpp_extracts(),
            r matches Err(e) ==> (e matches LoadError::Invariant(m) && m@ == broken_pack_message("cpp"@)),
    {
        let ex = vec![
            extract("c-rsa-generate-key-ex", "c", CALL_QUERY, "openssl.RSA_generate_key_ex", "RSA_generate_key_ex(rsa, bits, e, cb)"),
        ];
        let ex_api = "^openssl\\.RSA_generate_key_ex$";
        let digest = "^openssl\\.EVP_DigestInit_ex$";
        let cl = vec![
            with_arg(classify("CRYPTO-400", ex_api, "rsa-undersized", "critical", "RSA key of {bits} bits is below the 2048-bit floor", "CWE-326"), "bits", below(2048)),
            with_arg(classify("CRYPTO-404", ex_api, "rsa-2048", "high", "RSA-{bits} is quantum-vulnerable", "CWE-327"), "bits", ArgMatch::ExactInt(2048)),
            with_arg(classify("CRYPTO-407", ex_api, "rsa-unattributed", "high", "RSA-{bits} is quantum-vulnerable", "CWE-327"), "bits", between(2048, 4096)),
            with_arg(classify("CRYPTO-403", "^openssl\\.RSA_generate_key$", "rsa-undersized", "critical", "RSA key of {bits} bits is below the 2048-bit floor", "CWE-326"), "bits", below(2048)),
            with_arg(classify("CRYPTO-420", digest, "md5", "critical", "MD5 is broken", "CWE-328"), "digest_fn", exact_str("EVP_md5")),
            with_arg(classify("CRYPTO-421", digest, "sha-1", "critical", "SHA-1 is broken", "CWE-328"), "digest_fn", exact_str("EVP_sha1")),
            with_arg(classify("CRYPTO-440", "^openssl\\.EVP_EncryptInit_ex$", "aes-256-gcm", "low", "AES-256-GCM in use", "CWE-327"), "cipher_fn", exact_str("EVP_aes_256_gcm")),
        ];
        assert(rule_rows(cl@) =~= cpp_rules());
        assert(extract_rows(ex@) =~= cpp_extracts());
        checked(ex, cl, "cpp")
    }

    /// The built-in Rust rule pack.
    pub fn builtin_rust() -> (r: Result<RulePack, LoadError>)
        ensures
            r is Ok <==> rows_loadable(rust_rules()),
            r matches Ok(p) ==> pack_wf(p) && rule_rows(p.classify@) == rust_rules() && extract_rows(p.extract@) == rust_extracts(),
            r matches Err(e) ==> (e matches LoadError::Invariant(m) && m@ == broken_pack_message("rust"@)),
    {
        let ex = vec![
            extract("rs-rsa-new", "rust", CALL_QUERY, "rsa.RsaPrivateKey.new", "RsaPrivateKey::new(&mut rng, bits)"),
            extract("rs-rcgen-generate-for", "rust", CALL_QUERY, "rcgen.KeyPair.generate_for", "KeyPair::generate_for(&SIG_ALG)"),
            extract("rs-pbkdf2", "rust", CALL_QUERY, "pbkdf2.pbkdf2", "pbkdf2::<Hmac<Sha256>>(...)"),
        ];
        let rsa = "^rsa\\.RsaPrivateKey\\.new$";
        let ossl = "^openssl\\.Rsa\\.generate$";
        let signing = "^rsa\\.SigningKey\\.new$";
        let rcgen = "^rcgen\\.KeyPair\\.generate_for$";
        let pb = "^pbkdf2\\.pbkdf2$";
        let pbh = "^pbkdf2\\.pbkdf2_hmac$";
        let kx = "^rustls\\.CryptoProvider\\.kx_groups$";
        let mls = "^openmls\\.Ciphersuite$";
        let awskem = "^aws_lc_rs\\.kem\\.DecapsulationKey\\.generate$";
        let awssig = "^aws_lc_rs\\.signature\\.PqdsaKeyPair\\.generate$";
        let oqskem = "^oqs\\.kem\\.Kem\\.new$";
        let oqssig = "^oqs\\.sig\\.Sig\\.new$";
        let cl = vec![
            classify("CRYPTO-500", "^ring\\.EcdsaKeyPair\\.generate_pkcs8$", "ecdsa-unattributed", "high", "ring ECDSA key pair; the curve is in the signing algorithm argument", "CWE-327"),
            classify("CRYPTO-501", "^ring\\.Ed25519KeyPair\\.generate_pkcs8$", "ed25519", "high", "Ed25519 signatures are quantum-vulnerable", "CWE-327"),
            classify("CRYPTO-510", "^rustcrypto\\.Aes256Gcm\\.new$", "aes-256-gcm", "low", "AES-256-GCM in use", "CWE-327"),
            classify("CRYPTO-511", "^rustcrypto\\.Aes128Gcm\\.new$", "aes-128-gcm", "medium", "AES-128 offers reduced margin against Grover search", "CWE-326"),
            classify("CRYPTO-520", "^rustcrypto\\.Sha256\\.digest$", "sha-256", "low", "SHA-256 offers reduced margin against Grover search", "CWE-328"),
            classify("CRYPTO-521", "^rustcrypto\\.Sha384\\.digest$", "sha-384", "low", "SHA-384 in use", "CWE-328"),
            classify("CRYPTO-522", "^rustcrypto\\.Sha512\\.digest$", "sha-512", "low", "SHA-512 in use", "CWE-328"),
            classify("CRYPTO-530", "^rustcrypto\\.ChaCha20Poly1305\\.new$", "chacha20-poly1305", "low", "ChaCha20-Poly1305 in use", "CWE-327"),
            with_arg(classify("CRYPTO-540", rsa, "rsa-undersized", "critical", "RSA key of {bits} bits is below the 2048-bit floor", "CWE-326"), "bits", below(2048)),
            with_arg(classify("CRYPTO-541", rsa, "rsa-2048", "high", "RSA-{bits} is quantum-vulnerable", "CWE-327"), "bits", ArgMatch::ExactInt(2048)),
            with_arg(classify("CRYPTO-542", rsa, "rsa-4096", "high", "RSA-{bits} is quantum-vulnerable", "CWE-327"), "bits", ArgMatch::ExactInt(4096)),
            classify("CRYPTO-543", rsa, "rsa-unattributed", "high", "RSA key whose size is a runtime variable or not a listed literal; RSA is quantum-vulnerable", "CWE-327"),
            with_arg(classify("CRYPTO-544", signing, "rsa-pkcs1-sha256", "high", "RSA PKCS#1 v1.5 signing with {turbofish}", "CWE-327"), "turbofish", pattern("^(sha2::)?Sha256$")),
            with_arg(classify("CRYPTO-545", signing, "rsa-pkcs1-sha384", "high", "RSA PKCS#1 v1.5 signing with {turbofish}", "CWE-327"), "turbofish", pattern("^(sha2::)?Sha384$")),
            with_arg(classify("CRYPTO-546", signing, "rsa-pkcs1-sha512", "high", "RSA PKCS#1 v1.5 signing with {turbofish}", "CWE-327"), "turbofish", pattern("^(sha2::)?Sha512$")),
            with_arg(classify("CRYPTO-548", signing, "rsa-pkcs1-sha1", "critical", "RSA PKCS#1 v1.5 signing with SHA-1", "CWE-328"), "turbofish", pattern("^(sha1::)?Sha1$")),
            classify("CRYPTO-547", signing, "rsa-pkcs1-sha256", "high", "RSA PKCS#1 v1.5 signing key", "CWE-327"),
            classify("CRYPTO-550", "^ed25519_dalek\\.SigningKey\\.generate$", "ed25519", "high", "Ed25519 signatures are quantum-vulnerable", "CWE-327"),
            classify("CRYPTO-560", "^rustls\\.ClientConfig\\.builder$", "tls-unattributed", "auto", "rustls client configuration; the key exchange is the provider's", "CWE-327"),
            classify("CRYPTO-561", "^rustls\\.ServerConfig\\.builder$", "tls-unattributed", "auto", "rustls server configuration; the key exchange is the provider's", "CWE-327"),
            with_arg(classify("CRYPTO-571", rcgen, "ml-dsa-44", "low", "ML-DSA-44 key pair via rcgen ({sig_alg})", "CWE-327"), "sig_alg", pattern("^PKCS_ML_DSA_44$")),
            with_arg(classify("CRYPTO-572", rcgen, "ml-dsa-65", "low", "ML-DSA-65 key pair via rcgen ({sig_alg})", "CWE-327"), "sig_alg", pattern("^PKCS_ML_DSA_65$")),
            with_arg(classify("CRYPTO-573", rcgen, "ml-dsa-87", "low", "ML-DSA-87 key pair via rcgen ({sig_alg})", "CWE-327"), "sig_alg", pattern("^PKCS_ML_DSA_87$")),
            with_arg(classify("CRYPTO-574", rcgen, "ed25519", "high", "Ed25519 key pair via rcgen", "CWE-327"), "sig_alg", pattern("^PKCS_ED25519$")),
            with_arg(classify("CRYPTO-575", rcgen, "ecdsa-p256", "high", "ECDSA P-256 key pair via rcgen", "CWE-327"), "sig_alg", pattern("^PKCS_ECDSA_P256_SHA256$")),
            with_arg(classify("CRYPTO-576", rcgen, "ecdsa-p384", "high", "ECDSA P-384 key pair via rcgen", "CWE-327"), "sig_alg", pattern("^PKCS_ECDSA_P384_SHA384$")),
            with_arg(classify("CRYPTO-577", rcgen, "ecdsa-p521", "high", "ECDSA P-521 key pair via rcgen", "CWE-327"), "sig_alg", pattern("^PKCS_ECDSA_P521_SHA(256|384|512)$")),
            with_arg(classify("CRYPTO-578", rcgen, "rsa-pkcs1-sha256", "high", "RSA key pair via rcgen ({sig_alg})", "CWE-327"), "sig_alg", pattern("^PKCS_RSA_SHA256$")),
            with_arg(classify("CRYPTO-579", rcgen, "rsa-pkcs1-sha384", "high", "RSA key pair via rcgen ({sig_alg})", "CWE-327"), "sig_alg", pattern("^PKCS_RSA_SHA384$")),
            classify("CRYPTO-570", rcgen, "ecdsa-unattributed", "high", "rcgen key pair whose signature algorithm is not stated at the call site", "CWE-327"),
            with_arg(classify("CRYPTO-580", pb, "sha-256", "low", "PBKDF2 with {turbofish}", "CWE-916"), "turbofish", pattern("Sha256")),
            with_arg(classify("CRYPTO-581", pb, "sha-384", "low", "PBKDF2 with {turbofish}", "CWE-916"), "turbofish", pattern("Sha384")),
            with_arg(classify("CRYPTO-582", pb, "sha-512", "low", "PBKDF2 with {turbofish}", "CWE-916"), "turbofish", pattern("Sha512")),
            with_arg(classify("CRYPTO-584", pbh, "sha-256", "low", "PBKDF2-HMAC with {turbofish}", "CWE-916"), "turbofish", pattern("Sha256")),
            with_arg(classify("CRYPTO-585", pbh, "sha-384", "low", "PBKDF2-HMAC with {turbofish}", "CWE-916"), "turbofish", pattern("Sha384")),
            with_arg(classify("CRYPTO-586", pbh, "sha-512", "low", "PBKDF2-HMAC with {turbofish}", "CWE-916"), "turbofish", pattern("Sha512")),
            with_arg(classify("CRYPTO-590", ossl, "rsa-undersized", "critical", "RSA key of {bits} bits is below the 2048-bit floor", "CWE-326"), "bits", below(2048)),
            with_arg(classify("CRYPTO-591", ossl, "rsa-2048", "high", "RSA-{bits} is quantum-vulnerable", "CWE-327"), "bits", ArgMatch::ExactInt(2048)),
            with_arg(classify("CRYPTO-592", ossl, "rsa-4096", "high", "RSA-{bits} is quantum-vulnerable", "CWE-327"), "bits", ArgMatch::ExactInt(4096)),
            classify("CRYPTO-593", ossl, "rsa-unattributed", "high", "RSA key whose size is a runtime variable or not a listed literal; RSA is quantum-vulnerable", "CWE-327"),
            with_arg(classify("CRYPTO-920", kx, "x25519-mlkem768", "low", "Hybrid X25519MLKEM768 key exchange group", "CWE-327"), "group", pattern("^X25519MLKEM768$")),
            with_arg(classify("CRYPTO-921", kx, "x25519", "high", "X25519 key exchange group is quantum-vulnerable", "CWE-327"), "group", pattern("^X25519$")),
            with_arg(classify("CRYPTO-922", kx, "secp256r1-mlkem768", "low", "Hybrid SECP256R1MLKEM768 key exchange group", "CWE-327"), "group", pattern("^SECP256R1MLKEM768$")),
            with_arg(classify("CRYPTO-923", kx, "ecdh-p256", "high", "ECDH over {group} is quantum-vulnerable", "CWE-327"), "group", pattern("^SECP256R1$")),
            with_arg(classify("CRYPTO-924", kx, "ecdh-p384", "high", "ECDH over {group} is quantum-vulnerable", "CWE-327"), "group", pattern("^SECP384R1$")),
            with_arg(classify("CRYPTO-925", kx, "ecdh-p521", "high", "ECDH over {group} is quantum-vulnerable", "CWE-327"), "group", pattern("^SECP521R1$")),
            with_arg(classify("CRYPTO-1069", awskem, "ml-kem-512", "low", "ML-KEM-512 key via aws-lc-rs", "CWE-327"), "alg", pattern("^ML_KEM_512$")),
            with_arg(classify("CRYPTO-1070", awskem, "ml-kem-768", "low", "ML-KEM-768 key via aws-lc-rs", "CWE-327"), "alg", pattern("^ML_KEM_768$")),
            with_arg(classify("CRYPTO-1071", awskem, "ml-kem-1024", "low", "ML-KEM-1024 key via aws-lc-rs", "CWE-327"), "alg", pattern("^ML_KEM_1024$")),
            classify("CRYPTO-1072", awskem, "kem-unattributed", "low", "ML-KEM key via aws-lc-rs whose parameter set is not stated at the call site", "CWE-327"),
            with_arg(classify("CRYPTO-1073", awssig, "ml-dsa-44", "low", "ML-DSA-44 key pair via aws-lc-rs", "CWE-327"), "alg", pattern("^ML_DSA_44_SIGNING$")),
            with_arg(classify("CRYPTO-1074", awssig, "ml-dsa-65", "low", "ML-DSA-65 key pair via aws-lc-rs", "CWE-327"), "alg", pattern("^ML_DSA_65_SIGNING$")),
            with_arg(classify("CRYPTO-1075", awssig, "ml-dsa-87", "low", "ML-DSA-87 key pair via aws-lc-rs", "CWE-327"), "alg", pattern("^ML_DSA_87_SIGNING$")),
            with_arg(classify("CRYPTO-1138", mls, "x-wing", "low", "OpenMLS ciphersuite {variant} uses the X-Wing hybrid KEM", "CWE-327"), "variant", pattern("_XWING_")),
            with_arg(classify("CRYPTO-1139", mls, "ml-kem-1024", "low", "OpenMLS ciphersuite {variant} uses ML-KEM-1024", "CWE-327"), "variant", pattern("_MLKEM1024_")),
            with_arg(classify("CRYPTO-1140", mls, "x25519-mlkem768", "low", "OpenMLS ciphersuite {variant} uses the X25519MLKEM768 hybrid", "CWE-327"), "variant", pattern("_MLKEM768X25519_")),
            with_arg(classify("CRYPTO-1141", mls, "ml-kem-768", "low", "OpenMLS ciphersuite {variant} uses ML-KEM-768", "CWE-327"), "variant", pattern("_MLKEM768_")),
            with_arg(classify("CRYPTO-1142", oqskem, "ml-kem-512", "low", "ML-KEM-512 via liboqs", "CWE-327"), "alg", pattern("^MlKem512$")),
            with_arg(classify("CRYPTO-1143", oqskem, "ml-kem-768", "low", "ML-KEM-768 via liboqs", "CWE-327"), "alg", pattern("^MlKem768$")),
            with_arg(classify("CRYPTO-1144", oqskem, "ml-kem-1024", "low", "ML-KEM-1024 via liboqs", "CWE-327"), "alg", pattern("^MlKem1024$")),
            classify("CRYPTO-1145", oqskem, "kem-unattributed", "low", "KEM via liboqs whose parameter set is not stated at the call site", "CWE-327"),
            with_arg(classify("CRYPTO-1146", oqssig, "ml-dsa-44", "low", "ML-DSA-44 via liboqs", "CWE-327"), "alg", pattern("^MlDsa44$")),
            with_arg(classify("CRYPTO-1147", oqssig, "ml-dsa-65", "low", "ML-DSA-65 via liboqs", "CWE-327"), "alg", pattern("^MlDsa65$")),
            with_arg(classify("CRYPTO-1148", oqssig, "ml-dsa-87", "low", "ML-DSA-87 via liboqs", "CWE-327"), "alg", pattern("^MlDsa87$")),
            classify("CRYPTO-956", "^rustcrypto\\.Md5\\.digest$", "md5", "critical", "MD5 is broken", "CWE-328"),
            classify("CRYPTO-957", "^rustcrypto\\.Sha1\\.digest$", "sha-1", "critical", "SHA-1 is broken", "CWE-328"),
        ];
        assert(rule_rows(cl@) =~= rust_rules());
        assert(extract_rows(ex@) =~= rust_extracts());
        checked(ex, cl, "rust")
    }

    /// The built-in C# rule pack.
    pub fn builtin_csharp() -> (r: Result<RulePack, LoadError>)
        ensures
            r is Ok <==> rows_loadable(csharp_rules()),
            r matches Ok(p) ==> pack_wf(p) && rule_rows(p.classify@) == csharp_rules() && extract_rows(p.extract@) == csharp_extracts(),
            r matches Err(e) ==> (e matches LoadError::Invariant(m) && m@ == broken_pack_message("csharp"@)),
    {
        let ex = vec![
            extract("cs-factory-create", "csharp", "(invocation_expression function: (member_access_expression) @fn arguments: (argument_list) @args)", "System.Security.Cryptography.MD5.Create", "MD5.Create()"),
        ];
        let cl = vec![
            classify("CRYPTO-600", "^System\\.Security\\.Cryptography\\.MD5\\.Create$", "md5", "critical", "MD5 is broken", "CWE-328"),
            classify("CRYPTO-601", "^System\\.Security\\.Cryptography\\.SHA1\\.Create$", "sha-1", "critical", "SHA-1 is broken", "CWE-328"),
            classify("CRYPTO-602", "^System\\.Security\\.Cryptography\\.SHA256\\.Create$", "sha-256", "low", "SHA-256 in use", "CWE-328"),
            classify("CRYPTO-603", "^System\\.Security\\.Cryptography\\.SHA384\\.Create$", "sha-384", "low", "SHA-384 in use", "CWE-328"),
            classify("CRYPTO-604", "^System\\.Security\\.Cryptography\\.SHA512\\.Create$", "sha-512", "low", "SHA-512 in use", "CWE-328"),
            classify("CRYPTO-610", "^System\\.Security\\.Cryptography\\.DES\\.Create$", "des", "critical", "DES is broken", "CWE-327"),
            classify("CRYPTO-611", "^System\\.Security\\.Cryptography\\.TripleDES\\.Create$", "3des", "critical", "Triple DES is deprecated", "CWE-327"),
            classify("CRYPTO-620", "^System\\.Security\\.Cryptography\\.RSA\\.Create$", "rsa-unattributed", "high", "RSA is quantum-vulnerable", "CWE-327"),
            classify("CRYPTO-621", "^System\\.Security\\.Cryptography\\.ECDsa\\.Create$", "ecdsa-unattributed", "high", "ECDSA is quantum-vulnerable", "CWE-327"),
        ];
        assert(rule_rows(cl@) =~= csharp_rules());
        assert(extract_rows(ex@) =~= csharp_extracts());
        checked(ex, cl, "csharp")
    }
}

/// No two rules of `rows` share an id, and every severity hint is one the
/// risk engine understands.
pub open spec fn ids_and_hints_sound(rows: Seq<RuleRow>) -> bool {
    &&& forall|i: int, j: int| 0 <= i < j < rows.len() ==> rows[i].id != rows[j].id
    &&& forall|i: int| 0 <= i < rows.len() ==> severity_hint_allowed(#[trigger] rows[i].severity_hint)
}

proof fn lemma_go_ids_and_hints()
    ensures
        ids_and_hints_sound(go_rules()),
{
    let rows = go_rules();
    assert(rows.len() == 18);
    reveal_strlit("CRYPTO-001");
    assert("CRYPTO-001"@.len() == 10);
    assert("CRYPTO-001"@[7] == '0');
    assert("CRYPTO-001"@[8] == '0');
    assert("CRYPTO-001"@[9] == '1');
    reveal_strlit("CRYPTO-002");
    assert("CRYPTO-002"@.len() == 10);
    assert("CRYPTO-002"@[7] == '0');
    assert("CRYPTO-002"@[8] == '0');
    assert("CRYPTO-002"@[9] == '2');
    reveal_strlit("CRYPTO-003");
    assert("CRYPTO-003"@.len() == 10);
    assert("CRYPTO-003"@[7] == '0');
    assert("CRYPTO-003"@[8] == '0');
    assert("CRYPTO-003"@[9] == '3');
    reveal_strlit("CRYPTO-004");
    assert("CRYPTO-004"@.len() == 10);
    assert("CRYPTO-004"@[7] == '0');
    assert("CRYPTO-004"@[8] == '0');
    assert("CRYPTO-004"@[9] == '4');
    reveal_strlit("CRYPTO-011");
    assert("CRYPTO-011"@.len() == 10);
    assert("CRYPTO-011"@[7] == '0');
    assert("CRYPTO-011"@[8] == '1');
    assert("CRYPTO-011"@[9] == '1');
    reveal_strlit("CRYPTO-012");
    assert("CRYPTO-012"@.len() == 10);
    assert("CRYPTO-012"@[7] == '0');
    assert("CRYPTO-012"@[8] == '1');
    assert("CRYPTO-012"@[9] == '2');
    reveal_strlit("CRYPTO-013");
    assert("CRYPTO-013"@.len() == 10);
    assert("CRYPTO-013"@[7] == '0');
    assert("CRYPTO-013"@[8] == '1');
    assert("CRYPTO-013"@[9] == '3');
    reveal_strlit("CRYPTO-021");
    assert("CRYPTO-021"@.len() == 10);
    assert("CRYPTO-021"@[7] == '0');
    assert("CRYPTO-021"@[8] == '2');
    assert("CRYPTO-021"@[9] == '1');
    reveal_strlit("CRYPTO-032");
    assert("CRYPTO-032"@.len() == 10);
    assert("CRYPTO-032"@[7] == '0');
    assert("CRYPTO-032"@[8] == '3');
    assert("CRYPTO-032"@[9] == '2');
    reveal_strlit("CRYPTO-033");
    assert("CRYPTO-033"@.len() == 10);
    assert("CRYPTO-033"@[7] == '0');
    assert("CRYPTO-033"@[8] == '3');
    assert("CRYPTO-033"@[9] == '3');
    reveal_strlit("CRYPTO-034");
    assert("CRYPTO-034"@.len() == 10);
    assert("CRYPTO-034"@[7] == '0');
    assert("CRYPTO-034"@[8] == '3');
    assert("CRYPTO-034"@[9] == '4');
    reveal_strlit("CRYPTO-035");
    assert("CRYPTO-035"@.len() == 10);
    assert("CRYPTO-035"@[7] == '0');
    assert("CRYPTO-035"@[8] == '3');
    assert("CRYPTO-035"@[9] == '5');
    reveal_strlit("CRYPTO-050");
    assert("CRYPTO-050"@.len() == 10);
    assert("CRYPTO-050"@[7] == '0');
    assert("CRYPTO-050"@[8] == '5');
    assert("CRYPTO-050"@[9] == '0');
    reveal_strlit("CRYPTO-051");
    assert("CRYPTO-051"@.len() == 10);
    assert("CRYPTO-051"@[7] == '0');
    assert("CRYPTO-051"@[8] == '5');
    assert("CRYPTO-051"@[9] == '1');
    reveal_strlit("CRYPTO-130");
    assert("CRYPTO-130"@.len() == 10);
    assert("CRYPTO-130"@[7] == '1');
    assert("CRYPTO-130"@[8] == '3');
    assert("CRYPTO-130"@[9] == '0');
    reveal_strlit("CRYPTO-131");
    assert("CRYPTO-131"@.len() == 10);
    assert("CRYPTO-131"@[7] == '1');
    assert("CRYPTO-131"@[8] == '3');
    assert("CRYPTO-131"@[9] == '1');
    reveal_strlit("CRYPTO-948");
    assert("CRYPTO-948"@.len() == 10);
    assert("CRYPTO-948"@[7] == '9');
    assert("CRYPTO-948"@[8] == '4');
    assert("CRYPTO-948"@[9] == '8');
    reveal_strlit("CRYPTO-952");
    assert("CRYPTO-952"@.len() == 10);
    assert("CRYPTO-952"@[7] == '9');
    assert("CRYPTO-952"@[8] == '5');
    assert("CRYPTO-952"@[9] == '2');
    assert(rows[0].id == "CRYPTO-001"@);
    assert(rows[1].id == "CRYPTO-002"@);
    assert(rows[2].id == "CRYPTO-003"@);
    assert(rows[3].id == "CRYPTO-004"@);
    assert(rows[4].id == "CRYPTO-011"@);
    assert(rows[5].id == "CRYPTO-012"@);
    assert(rows[6].id == "CRYPTO-013"@);
    assert(rows[7].id == "CRYPTO-021"@);
    assert(rows[8].id == "CRYPTO-032"@);
    assert(rows[9].id == "CRYPTO-033"@);
    assert(rows[10].id == "CRYPTO-034"@);
    assert(rows[11].id == "CRYPTO-035"@);
    assert(rows[12].id == "CRYPTO-050"@);
    assert(rows[13].id == "CRYPTO-051"@);
    assert(rows[14].id == "CRYPTO-130"@);
    assert(rows[15].id == "CRYPTO-131"@);
    assert(rows[16].id == "CRYPTO-948"@);
    assert(rows[17].id == "CRYPTO-952"@);
}

proof fn lemma_python_ids_and_hints()
    ensures
        ids_and_hints_sound(python_rules()),
{
    let rows = python_rules();
    assert(rows.len() == 10);
    reveal_strlit("CRYPTO-101");
    assert("CRYPTO-101"@.len() == 10);
    assert("CRYPTO-101"@[7] == '1');
    assert("CRYPTO-101"@[8] == '0');
    assert("CRYPTO-101"@[9] == '1');
    reveal_strlit("CRYPTO-102");
    assert("CRYPTO-102"@.len() == 10);
    assert("CRYPTO-102"@[7] == '1');
    assert("CRYPTO-102"@[8] == '0');
    assert("CRYPTO-102"@[9] == '2');
    reveal_strlit("CRYPTO-103");
    assert("CRYPTO-103"@.len() == 10);
    assert("CRYPTO-103"@[7] == '1');
    assert("CRYPTO-103"@[8] == '0');
    assert("CRYPTO-103"@[9] == '3');
    reveal_strlit("CRYPTO-111");
    assert("CRYPTO-111"@.len() == 10);
    assert("CRYPTO-111"@[7] == '1');
    assert("CRYPTO-111"@[8] == '1');
    assert("CRYPTO-111"@[9] == '1');
    reveal_strlit("CRYPTO-112");
    assert("CRYPTO-112"@.len() == 10);
    assert("CRYPTO-112"@[7] == '1');
    assert("CRYPTO-112"@[8] == '1');
    assert("CRYPTO-112"@[9] == '2');
    reveal_strlit("CRYPTO-140");
    assert("CRYPTO-140"@.len() == 10);
    assert("CRYPTO-140"@[7] == '1');
    assert("CRYPTO-140"@[8] == '4');
    assert("CRYPTO-140"@[9] == '0');
    reveal_strlit("CRYPTO-141");
    assert("CRYPTO-141"@.len() == 10);
    assert("CRYPTO-141"@[7] == '1');
    assert("CRYPTO-141"@[8] == '4');
    assert("CRYPTO-141"@[9] == '1');
    reveal_strlit("CRYPTO-809");
    assert("CRYPTO-809"@.len() == 10);
    assert("CRYPTO-809"@[7] == '8');
    assert("CRYPTO-809"@[8] == '0');
    assert("CRYPTO-809"@[9] == '9');
    reveal_strlit("CRYPTO-810");
    assert("CRYPTO-810"@.len() == 10);
    assert("CRYPTO-810"@[7] == '8');
    assert("CRYPTO-810"@[8] == '1');
    assert("CRYPTO-810"@[9] == '0');
    reveal_strlit("CRYPTO-150");
    assert("CRYPTO-150"@.len() == 10);
    assert("CRYPTO-150"@[7] == '1');
    assert("CRYPTO-150"@[8] == '5');
    assert("CRYPTO-150"@[9] == '0');
    assert(rows[0].id == "CRYPTO-101"@);
    assert(rows[1].id == "CRYPTO-102"@);
    assert(rows[2].id == "CRYPTO-103"@);
    assert(rows[3].id == "CRYPTO-111"@);
    assert(rows[4].id == "CRYPTO-112"@);
    assert(rows[5].id == "CRYPTO-140"@);
    assert(rows[6].id == "CRYPTO-141"@);
    assert(rows[7].id == "CRYPTO-809"@);
    assert(rows[8].id == "CRYPTO-810"@);
    assert(rows[9].id == "CRYPTO-150"@);
}

proof fn lemma_java_ids_and_hints()
    ensures
        ids_and_hints_sound(java_rules()),
{
    let rows = java_rules();
    assert(rows.len() == 7);
    reveal_strlit("CRYPTO-200");
    assert("CRYPTO-200"@.len() == 10);
    assert("CRYPTO-200"@[7] == '2');
    assert("CRYPTO-200"@[8] == '0');
    assert("CRYPTO-200"@[9] == '0');
    reveal_strlit("CRYPTO-201");
    assert("CRYPTO-201"@.len() == 10);
    assert("CRYPTO-201"@[7] == '2');
    assert("CRYPTO-201"@[8] == '0');
    assert("CRYPTO-201"@[9] == '1');
    reveal_strlit("CRYPTO-207");
    assert("CRYPTO-207"@.len() == 10);
    assert("CRYPTO-207"@[7] == '2');
    assert("CRYPTO-207"@[8] == '0');
    assert("CRYPTO-207"@[9] == '7');
    reveal_strlit("CRYPTO-210");
    assert("CRYPTO-210"@.len() == 10);
    assert("CRYPTO-210"@[7] == '2');
    assert("CRYPTO-210"@[8] == '1');
    assert("CRYPTO-210"@[9] == '0');
    reveal_strlit("CRYPTO-220");
    assert("CRYPTO-220"@.len() == 10);
    assert("CRYPTO-220"@[7] == '2');
    assert("CRYPTO-220"@[8] == '2');
    assert("CRYPTO-220"@[9] == '0');
    reveal_strlit("CRYPTO-221");
    assert("CRYPTO-221"@.len() == 10);
    assert("CRYPTO-221"@[7] == '2');
    assert("CRYPTO-221"@[8] == '2');
    assert("CRYPTO-221"@[9] == '1');
    reveal_strlit("CRYPTO-222");
    assert("CRYPTO-222"@.len() == 10);
    assert("CRYPTO-222"@[7] == '2');
    assert("CRYPTO-222"@[8] == '2');
    assert("CRYPTO-222"@[9] == '2');
    assert(rows[0].id == "CRYPTO-200"@);
    assert(rows[1].id == "CRYPTO-201"@);
    assert(rows[2].id == "CRYPTO-207"@);
    assert(rows[3].id == "CRYPTO-210"@);
    assert(rows[4].id == "CRYPTO-220"@);
    assert(rows[5].id == "CRYPTO-221"@);
    assert(rows[6].id == "CRYPTO-222"@);
}

proof fn lemma_javascript_ids_and_hints()
    ensures
        ids_and_hints_sound(javascript_rules()),
{
    let rows = javascript_rules();
    assert(rows.len() == 9);
    reveal_strlit("CRYPTO-300");
    assert("CRYPTO-300"@.len() == 10);
    assert("CRYPTO-300"@[7] == '3');
    assert("CRYPTO-300"@[8] == '0');
    assert("CRYPTO-300"@[9] == '0');
    reveal_strlit("CRYPTO-310");
    assert("CRYPTO-310"@.len() == 10);
    assert("CRYPTO-310"@[7] == '3');
    assert("CRYPTO-310"@[8] == '1');
    assert("CRYPTO-310"@[9] == '0');
    reveal_strlit("CRYPTO-311");
    assert("CRYPTO-311"@.len() == 10);
    assert("CRYPTO-311"@[7] == '3');
    assert("CRYPTO-311"@[8] == '1');
    assert("CRYPTO-311"@[9] == '1');
    reveal_strlit("CRYPTO-969");
    assert("CRYPTO-969"@.len() == 10);
    assert("CRYPTO-969"@[7] == '9');
    assert("CRYPTO-969"@[8] == '6');
    assert("CRYPTO-969"@[9] == '9');
    reveal_strlit("CRYPTO-320");
    assert("CRYPTO-320"@.len() == 10);
    assert("CRYPTO-320"@[7] == '3');
    assert("CRYPTO-320"@[8] == '2');
    assert("CRYPTO-320"@[9] == '0');
    reveal_strlit("CRYPTO-321");
    assert("CRYPTO-321"@.len() == 10);
    assert("CRYPTO-321"@[7] == '3');
    assert("CRYPTO-321"@[8] == '2');
    assert("CRYPTO-321"@[9] == '1');
    reveal_strlit("CRYPTO-340");
    assert("CRYPTO-340"@.len() == 10);
    assert("CRYPTO-340"@[7] == '3');
    assert("CRYPTO-340"@[8] == '4');
    assert("CRYPTO-340"@[9] == '0');
    reveal_strlit("CRYPTO-342");
    assert("CRYPTO-342"@.len() == 10);
    assert("CRYPTO-342"@[7] == '3');
    assert("CRYPTO-342"@[8] == '4');
    assert("CRYPTO-342"@[9] == '2');
    reveal_strlit("CRYPTO-345");
    assert("CRYPTO-345"@.len() == 10);
    assert("CRYPTO-345"@[7] == '3');
    assert("CRYPTO-345"@[8] == '4');
    assert("CRYPTO-345"@[9] == '5');
    assert(rows[0].id == "CRYPTO-300"@);
    assert(rows[1].id == "CRYPTO-310"@);
    assert(rows[2].id == "CRYPTO-311"@);
    assert(rows[3].id == "CRYPTO-969"@);
    assert(rows[4].id == "CRYPTO-320"@);
    assert(rows[5].id == "CRYPTO-321"@);
    assert(rows[6].id == "CRYPTO-340"@);
    assert(rows[7].id == "CRYPTO-342"@);
    assert(rows[8].id == "CRYPTO-345"@);
}

proof fn lemma_cpp_ids_and_hints()
    ensures
        ids_and_hints_sound(cpp_rules()),
{
    let rows = cpp_rules();
    assert(rows.len() == 7);
    reveal_strlit("CRYPTO-400");
    assert("CRYPTO-400"@.len() == 10);
    assert("CRYPTO-400"@[7] == '4');
    assert("CRYPTO-400"@[8] == '0');
    assert("CRYPTO-400"@[9] == '0');
    reveal_strlit("CRYPTO-404");
    assert("CRYPTO-404"@.len() == 10);
    assert("CRYPTO-404"@[7] == '4');
    assert("CRYPTO-404"@[8] == '0');
    assert("CRYPTO-404"@[9] == '4');
    reveal_strlit("CRYPTO-407");
    assert("CRYPTO-407"@.len() == 10);
    assert("CRYPTO-407"@[7] == '4');
    assert("CRYPTO-407"@[8] == '0');
    assert("CRYPTO-407"@[9] == '7');
    reveal_strlit("CRYPTO-403");
    assert("CRYPTO-403"@.len() == 10);
    assert("CRYPTO-403"@[7] == '4');
    assert("CRYPTO-403"@[8] == '0');
    assert("CRYPTO-403"@[9] == '3');
    reveal_strlit("CRYPTO-420");
    assert("CRYPTO-420"@.len() == 10);
    assert("CRYPTO-420"@[7] == '4');
    assert("CRYPTO-420"@[8] == '2');
    assert("CRYPTO-420"@[9] == '0');
    reveal_strlit("CRYPTO-421");
    assert("CRYPTO-421"@.len() == 10);
    assert("CRYPTO-421"@[7] == '4');
    assert("CRYPTO-421"@[8] == '2');
    assert("CRYPTO-421"@[9] == '1');
    reveal_strlit("CRYPTO-440");
    assert("CRYPTO-440"@.len() == 10);
    assert("CRYPTO-440"@[7] == '4');
    assert("CRYPTO-440"@[8] == '4');
    assert("CRYPTO-440"@[9] == '0');
    assert(rows[0].id == "CRYPTO-400"@);
    assert(rows[1].id == "CRYPTO-404"@);
    assert(rows[2].id == "CRYPTO-407"@);
    assert(rows[3].id == "CRYPTO-403"@);
    assert(rows[4].id == "CRYPTO-420"@);
    assert(rows[5].id == "CRYPTO-421"@);
    assert(rows[6].id == "CRYPTO-440"@);
}

proof fn lemma_rust_ids_and_hints()
    ensures
        ids_and_hints_sound(rust_rules()),
{
    let rows = rust_rules();
    assert(rows.len() == 66);
    reveal_strlit("CRYPTO-500");
    assert("CRYPTO-500"@.len() == 10);
    assert("CRYPTO-500"@[7] == '5');
    assert("CRYPTO-500"@[8] == '0');
    assert("CRYPTO-500"@[9] == '0');
    reveal_strlit("CRYPTO-501");
    assert("CRYPTO-501"@.len() == 10);
    assert("CRYPTO-501"@[7] == '5');
    assert("CRYPTO-501"@[8] == '0');
    assert("CRYPTO-501"@[9] == '1');
    reveal_strlit("CRYPTO-510");
    assert("CRYPTO-510"@.len() == 10);
    assert("CRYPTO-510"@[7] == '5');
    assert("CRYPTO-510"@[8] == '1');
    assert("CRYPTO-510"@[9] == '0');
    reveal_strlit("CRYPTO-511");
    assert("CRYPTO-511"@.len() == 10);
    assert("CRYPTO-511"@[7] == '5');
    assert("CRYPTO-511"@[8] == '1');
    assert("CRYPTO-511"@[9] == '1');
    reveal_strlit("CRYPTO-520");
    assert("CRYPTO-520"@.len() == 10);
    assert("CRYPTO-520"@[7] == '5');
    assert("CRYPTO-520"@[8] == '2');
    assert("CRYPTO-520"@[9] == '0');
    reveal_strlit("CRYPTO-521");
    assert("CRYPTO-521"@.len() == 10);
    assert("CRYPTO-521"@[7] == '5');
    assert("CRYPTO-521"@[8] == '2');
    assert("CRYPTO-521"@[9] == '1');
    reveal_strlit("CRYPTO-522");
    assert("CRYPTO-522"@.len() == 10);
    assert("CRYPTO-522"@[7] == '5');
    assert("CRYPTO-522"@[8] == '2');
    assert("CRYPTO-522"@[9] == '2');
    reveal_strlit("CRYPTO-530");
    assert("CRYPTO-530"@.len() == 10);
    assert("CRYPTO-530"@[7] == '5');
    assert("CRYPTO-530"@[8] == '3');
    assert("CRYPTO-530"@[9] == '0');
    reveal_strlit("CRYPTO-540");
    assert("CRYPTO-540"@.len() == 10);
    assert("CRYPTO-540"@[7] == '5');
    assert("CRYPTO-540"@[8] == '4');
    assert("CRYPTO-540"@[9] == '0');
    reveal_strlit("CRYPTO-541");
    assert("CRYPTO-541"@.len() == 10);
    assert("CRYPTO-541"@[7] == '5');
    assert("CRYPTO-541"@[8] == '4');
    assert("CRYPTO-541"@[9] == '1');
    reveal_strlit("CRYPTO-542");
    assert("CRYPTO-542"@.len() == 10);
    assert("CRYPTO-542"@[7] == '5');
    assert("CRYPTO-542"@[8] == '4');
    assert("CRYPTO-542"@[9] == '2');
    reveal_strlit("CRYPTO-543");
    assert("CRYPTO-543"@.len() == 10);
    assert("CRYPTO-543"@[7] == '5');
    assert("CRYPTO-543"@[8] == '4');
    assert("CRYPTO-543"@[9] == '3');
    reveal_strlit("CRYPTO-544");
    assert("CRYPTO-544"@.len() == 10);
    assert("CRYPTO-544"@[7] == '5');
    assert("CRYPTO-544"@[8] == '4');
    assert("CRYPTO-544"@[9] == '4');
    reveal_strlit("CRYPTO-545");
    assert("CRYPTO-545"@.len() == 10);
    assert("CRYPTO-545"@[7] == '5');
    assert("CRYPTO-545"@[8] == '4');
    assert("CRYPTO-545"@[9] == '5');
    reveal_strlit("CRYPTO-546");
    assert("CRYPTO-546"@.len() == 10);
    assert("CRYPTO-546"@[7] == '5');
    assert("CRYPTO-546"@[8] == '4');
    assert("CRYPTO-546"@[9] == '6');
    reveal_strlit("CRYPTO-548");
    assert("CRYPTO-548"@.len() == 10);
    assert("CRYPTO-548"@[7] == '5');
    assert("CRYPTO-548"@[8] == '4');
    assert("CRYPTO-548"@[9] == '8');
    reveal_strlit("CRYPTO-547");
    assert("CRYPTO-547"@.len() == 10);
    assert("CRYPTO-547"@[7] == '5');
    assert("CRYPTO-547"@[8] == '4');
    assert("CRYPTO-547"@[9] == '7');
    reveal_strlit("CRYPTO-550");
    assert("CRYPTO-550"@.len() == 10);
    assert("CRYPTO-550"@[7] == '5');
    assert("CRYPTO-550"@[8] == '5');
    assert("CRYPTO-550"@[9] == '0');
    reveal_strlit("CRYPTO-560");
    assert("CRYPTO-560"@.len() == 10);
    assert("CRYPTO-560"@[7] == '5');
    assert("CRYPTO-560"@[8] == '6');
    assert("CRYPTO-560"@[9] == '0');
    reveal_strlit("CRYPTO-561");
    assert("CRYPTO-561"@.len() == 10);
    assert("CRYPTO-561"@[7] == '5');
    assert("CRYPTO-561"@[8] == '6');
    assert("CRYPTO-561"@[9] == '1');
    reveal_strlit("CRYPTO-571");
    assert("CRYPTO-571"@.len() == 10);
    assert("CRYPTO-571"@[7] == '5');
    assert("CRYPTO-571"@[8] == '7');
    assert("CRYPTO-571"@[9] == '1');
    reveal_strlit("CRYPTO-572");
    assert("CRYPTO-572"@.len() == 10);
    assert("CRYPTO-572"@[7] == '5');
    assert("CRYPTO-572"@[8] == '7');
    assert("CRYPTO-572"@[9] == '2');
    reveal_strlit("CRYPTO-573");
    assert("CRYPTO-573"@.len() == 10);
    assert("CRYPTO-573"@[7] == '5');
    assert("CRYPTO-573"@[8] == '7');
    assert("CRYPTO-573"@[9] == '3');
    reveal_strlit("CRYPTO-574");
    assert("CRYPTO-574"@.len() == 10);
    assert("CRYPTO-574"@[7] == '5');
    assert("CRYPTO-574"@[8] == '7');
    assert("CRYPTO-574"@[9] == '4');
    reveal_strlit("CRYPTO-575");
    assert("CRYPTO-575"@.len() == 10);
    assert("CRYPTO-575"@[7] == '5');
    assert("CRYPTO-575"@[8] == '7');
    assert("CRYPTO-575"@[9] == '5');
    reveal_strlit("CRYPTO-576");
    assert("CRYPTO-576"@.len() == 10);
    assert("CRYPTO-576"@[7] == '5');
    assert("CRYPTO-576"@[8] == '7');
    assert("CRYPTO-576"@[9] == '6');
    reveal_strlit("CRYPTO-577");
    assert("CRYPTO-577"@.len() == 10);
    assert("CRYPTO-577"@[7] == '5');
    assert("CRYPTO-577"@[8] == '7');
    assert("CRYPTO-577"@[9] == '7');
    reveal_strlit("CRYPTO-578");
    assert("CRYPTO-578"@.len() == 10);
    assert("CRYPTO-578"@[7] == '5');
    assert("CRYPTO-578"@[8] == '7');
    assert("CRYPTO-578"@[9] == '8');
    reveal_strlit("CRYPTO-579");
    assert("CRYPTO-579"@.len() == 10);
    assert("CRYPTO-579"@[7] == '5');
    assert("CRYPTO-579"@[8] == '7');
    assert("CRYPTO-579"@[9] == '9');
    reveal_strlit("CRYPTO-570");
    assert("CRYPTO-570"@.len() == 10);
    assert("CRYPTO-570"@[7] == '5');
    assert("CRYPTO-570"@[8] == '7');
    assert("CRYPTO-570"@[9] == '0');
    reveal_strlit("CRYPTO-580");
    assert("CRYPTO-580"@.len() == 10);
    assert("CRYPTO-580"@[7] == '5');
    assert("CRYPTO-580"@[8] == '8');
    assert("CRYPTO-580"@[9] == '0');
    reveal_strlit("CRYPTO-581");
    assert("CRYPTO-581"@.len() == 10);
    assert("CRYPTO-581"@[7] == '5');
    assert("CRYPTO-581"@[8] == '8');
    assert("CRYPTO-581"@[9] == '1');
    reveal_strlit("CRYPTO-582");
    assert("CRYPTO-582"@.len() == 10);
    assert("CRYPTO-582"@[7] == '5');
    assert("CRYPTO-582"@[8] == '8');
    assert("CRYPTO-582"@[9] == '2');
    reveal_strlit("CRYPTO-584");
    assert("CRYPTO-584"@.len() == 10);
    assert("CRYPTO-584"@[7] == '5');
    assert("CRYPTO-584"@[8] == '8');
    assert("CRYPTO-584"@[9] == '4');
    reveal_strlit("CRYPTO-585");
    assert("CRYPTO-585"@.len() == 10);
    assert("CRYPTO-585"@[7] == '5');
    assert("CRYPTO-585"@[8] == '8');
    assert("CRYPTO-585"@[9] == '5');
    reveal_strlit("CRYPTO-586");
    assert("CRYPTO-586"@.len() == 10);
    assert("CRYPTO-586"@[7] == '5');
    assert("CRYPTO-586"@[8] == '8');
    assert("CRYPTO-586"@[9] == '6');
    reveal_strlit("CRYPTO-590");
    assert("CRYPTO-590"@.len() == 10);
    assert("CRYPTO-590"@[7] == '5');
    assert("CRYPTO-590"@[8] == '9');
    assert("CRYPTO-590"@[9] == '0');
    reveal_strlit("CRYPTO-591");
    assert("CRYPTO-591"@.len() == 10);
    assert("CRYPTO-591"@[7] == '5');
    assert("CRYPTO-591"@[8] == '9');
    assert("CRYPTO-591"@[9] == '1');
    reveal_strlit("CRYPTO-592");
    assert("CRYPTO-592"@.len() == 10);
    assert("CRYPTO-592"@[7] == '5');
    assert("CRYPTO-592"@[8] == '9');
    assert("CRYPTO-592"@[9] == '2');
    reveal_strlit("CRYPTO-593");
    assert("CRYPTO-593"@.len() == 10);
    assert("CRYPTO-593"@[7] == '5');
    assert("CRYPTO-593"@[8] == '9');
    assert("CRYPTO-593"@[9] == '3');
    reveal_strlit("CRYPTO-920");
    assert("CRYPTO-920"@.len() == 10);
    assert("CRYPTO-920"@[7] == '9');
    assert("CRYPTO-920"@[8] == '2');
    assert("CRYPTO-920"@[9] == '0');
    reveal_strlit("CRYPTO-921");
    assert("CRYPTO-921"@.len() == 10);
    assert("CRYPTO-921"@[7] == '9');
    assert("CRYPTO-921"@[8] == '2');
    assert("CRYPTO-921"@[9] == '1');
    reveal_strlit("CRYPTO-922");
    assert("CRYPTO-922"@.len() == 10);
    assert("CRYPTO-922"@[7] == '9');
    assert("CRYPTO-922"@[8] == '2');
    assert("CRYPTO-922"@[9] == '2');
    reveal_strlit("CRYPTO-923");
    assert("CRYPTO-923"@.len() == 10);
    assert("CRYPTO-923"@[7] == '9');
    assert("CRYPTO-923"@[8] == '2');
    assert("CRYPTO-923"@[9] == '3');
    reveal_strlit("CRYPTO-924");
    assert("CRYPTO-924"@.len() == 10);
    assert("CRYPTO-924"@[7] == '9');
    assert("CRYPTO-924"@[8] == '2');
    assert("CRYPTO-924"@[9] == '4');
    reveal_strlit("CRYPTO-925");
    assert("CRYPTO-925"@.len() == 10);
    assert("CRYPTO-925"@[7] == '9');
    assert("CRYPTO-925"@[8] == '2');
    assert("CRYPTO-925"@[9] == '5');
    reveal_strlit("CRYPTO-1069");
    assert("CRYPTO-1069"@.len() == 11);
    assert("CRYPTO-1069"@[7] == '1');
    assert("CRYPTO-1069"@[8] == '0');
    assert("CRYPTO-1069"@[9] == '6');
    assert("CRYPTO-1069"@[10] == '9');
    reveal_strlit("CRYPTO-1070");
    assert("CRYPTO-1070"@.len() == 11);
    assert("CRYPTO-1070"@[7] == '1');
    assert("CRYPTO-1070"@[8] == '0');
    assert("CRYPTO-1070"@[9] == '7');
    assert("CRYPTO-1070"@[10] == '0');
    reveal_strlit("CRYPTO-1071");
    assert("CRYPTO-1071"@.len() == 11);
    assert("CRYPTO-1071"@[7] == '1');
    assert("CRYPTO-1071"@[8] == '0');
    assert("CRYPTO-1071"@[9] == '7');
    assert("CRYPTO-1071"@[10] == '1');
    reveal_strlit("CRYPTO-1072");
    assert("CRYPTO-1072"@.len() == 11);
    assert("CRYPTO-1072"@[7] == '1');
    assert("CRYPTO-1072"@[8] == '0');
    assert("CRYPTO-1072"@[9] == '7');
    assert("CRYPTO-1072"@[10] == '2');
    reveal_strlit("CRYPTO-1073");
    assert("CRYPTO-1073"@.len() == 11);
    assert("CRYPTO-1073"@[7] == '1');
    assert("CRYPTO-1073"@[8] == '0');
    assert("CRYPTO-1073"@[9] == '7');
    assert("CRYPTO-1073"@[10] == '3');
    reveal_strlit("CRYPTO-1074");
    assert("CRYPTO-1074"@.len() == 11);
    assert("CRYPTO-1074"@[7] == '1');
    assert("CRYPTO-1074"@[8] == '0');
    assert("CRYPTO-1074"@[9] == '7');
    assert("CRYPTO-1074"@[10] == '4');
    reveal_strlit("CRYPTO-1075");
    assert("CRYPTO-1075"@.len() == 11);
    assert("CRYPTO-1075"@[7] == '1');
    assert("CRYPTO-1075"@[8] == '0');
    assert("CRYPTO-1075"@[9] == '7');
    assert("CRYPTO-1075"@[10] == '5');
    reveal_strlit("CRYPTO-1138");
    assert("CRYPTO-1138"@.len() == 11);
    assert("CRYPTO-1138"@[7] == '1');
    assert("CRYPTO-1138"@[8] == '1');
    assert("CRYPTO-1138"@[9] == '3');
    assert("CRYPTO-1138"@[10] == '8');
    reveal_strlit("CRYPTO-1139");
    assert("CRYPTO-1139"@.len() == 11);
    assert("CRYPTO-1139"@[7] == '1');
    assert("CRYPTO-1139"@[8] == '1');
    assert("CRYPTO-1139"@[9] == '3');
    assert("CRYPTO-1139"@[10] == '9');
    reveal_strlit("CRYPTO-1140");
    assert("CRYPTO-1140"@.len() == 11);
    assert("CRYPTO-1140"@[7] == '1');
    assert("CRYPTO-1140"@[8] == '1');
    assert("CRYPTO-1140"@[9] == '4');
    assert("CRYPTO-1140"@[10] == '0');
    reveal_strlit("CRYPTO-1141");
    assert("CRYPTO-1141"@.len() == 11);
    assert("CRYPTO-1141"@[7] == '1');
    assert("CRYPTO-1141"@[8] == '1');
    assert("CRYPTO-1141"@[9] == '4');
    assert("CRYPTO-1141"@[10] == '1');
    reveal_strlit("CRYPTO-1142");
    assert("CRYPTO-1142"@.len() == 11);
    assert("CRYPTO-1142"@[7] == '1');
    assert("CRYPTO-1142"@[8] == '1');
    assert("CRYPTO-1142"@[9] == '4');
    assert("CRYPTO-1142"@[10] == '2');
    reveal_strlit("CRYPTO-1143");
    assert("CRYPTO-1143"@.len() == 11);
    assert("CRYPTO-1143"@[7] == '1');
    assert("CRYPTO-1143"@[8] == '1');
    assert("CRYPTO-1143"@[9] == '4');
    assert("CRYPTO-1143"@[10] == '3');
    reveal_strlit("CRYPTO-1144");
    assert("CRYPTO-1144"@.len() == 11);
    assert("CRYPTO-1144"@[7] == '1');
    assert("CRYPTO-1144"@[8] == '1');
    assert("CRYPTO-1144"@[9] == '4');
    assert("CRYPTO-1144"@[10] == '4');
    reveal_strlit("CRYPTO-1145");
    assert("CRYPTO-1145"@.len() == 11);
    assert("CRYPTO-1145"@[7] == '1');
    assert("CRYPTO-1145"@[8] == '1');
    assert("CRYPTO-1145"@[9] == '4');
    assert("CRYPTO-1145"@[10] == '5');
    reveal_strlit("CRYPTO-1146");
    assert("CRYPTO-1146"@.len() == 11);
    assert("CRYPTO-1146"@[7] == '1');
    assert("CRYPTO-1146"@[8] == '1');
    assert("CRYPTO-1146"@[9] == '4');
    assert("CRYPTO-1146"@[10] == '6');
    reveal_strlit("CRYPTO-1147");
    assert("CRYPTO-1147"@.len() == 11);
    assert("CRYPTO-1147"@[7] == '1');
    assert("CRYPTO-1147"@[8] == '1');
    assert("CRYPTO-1147"@[9] == '4');
    assert("CRYPTO-1147"@[10] == '7');
    reveal_strlit("CRYPTO-1148");
    assert("CRYPTO-1148"@.len() == 11);
    assert("CRYPTO-1148"@[7] == '1');
    assert("CRYPTO-1148"@[8] == '1');
    assert("CRYPTO-1148"@[9] == '4');
    assert("CRYPTO-1148"@[10] == '8');
    reveal_strlit("CRYPTO-956");
    assert("CRYPTO-956"@.len() == 10);
    assert("CRYPTO-956"@[7] == '9');
    assert("CRYPTO-956"@[8] == '5');
    assert("CRYPTO-956"@[9] == '6');
    reveal_strlit("CRYPTO-957");
    assert("CRYPTO-957"@.len() == 10);
    assert("CRYPTO-957"@[7] == '9');
    assert("CRYPTO-957"@[8] == '5');
    assert("CRYPTO-957"@[9] == '7');
    assert(rows[0].id == "CRYPTO-500"@);
    assert(rows[1].id == "CRYPTO-501"@);
    assert(rows[2].id == "CRYPTO-510"@);
    assert(rows[3].id == "CRYPTO-511"@);
    assert(rows[4].id == "CRYPTO-520"@);
    assert(rows[5].id == "CRYPTO-521"@);
    assert(rows[6].id == "CRYPTO-522"@);
    assert(rows[7].id == "CRYPTO-530"@);
    assert(rows[8].id == "CRYPTO-540"@);
    assert(rows[9].id == "CRYPTO-541"@);
    assert(rows[10].id == "CRYPTO-542"@);
    assert(rows[11].id == "CRYPTO-543"@);
    assert(rows[12].id == "CRYPTO-544"@);
    assert(rows[13].id == "CRYPTO-545"@);
    assert(rows[14].id == "CRYPTO-546"@);
    assert(rows[15].id == "CRYPTO-548"@);
    assert(rows[16].id == "CRYPTO-547"@);
    assert(rows[17].id == "CRYPTO-550"@);
    assert(rows[18].id == "CRYPTO-560"@);
    assert(rows[19].id == "CRYPTO-561"@);
    assert(rows[20].id == "CRYPTO-571"@);
    assert(rows[21].id == "CRYPTO-572"@);
    assert(rows[22].id == "CRYPTO-573"@);
    assert(rows[23].id == "CRYPTO-574"@);
    assert(rows[24].id == "CRYPTO-575"@);
    assert(rows[25].id == "CRYPTO-576"@);
    assert(rows[26].id == "CRYPTO-577"@);
    assert(rows[27].id == "CRYPTO-578"@);
    assert(rows[28].id == "CRYPTO-579"@);
    assert(rows[29].id == "CRYPTO-570"@);
    assert(rows[30].id == "CRYPTO-580"@);
    assert(rows[31].id == "CRYPTO-581"@);
    assert(rows[32].id == "CRYPTO-582"@);
    assert(rows[33].id == "CRYPTO-584"@);
    assert(rows[34].id == "CRYPTO-585"@);
    assert(rows[35].id == "CRYPTO-586"@);
    assert(rows[36].id == "CRYPTO-590"@);
    assert(rows[37].id == "CRYPTO-591"@);
    assert(rows[38].id == "CRYPTO-592"@);
    assert(rows[39].id == "CRYPTO-593"@);
    assert(rows[40].id == "CRYPTO-920"@);
    assert(rows[41].id == "CRYPTO-921"@);
    assert(rows[42].id == "CRYPTO-922"@);
    assert(rows[43].id == "CRYPTO-923"@);
    assert(rows[44].id == "CRYPTO-924"@);
    assert(rows[45].id == "CRYPTO-925"@);
    assert(rows[46].id == "CRYPTO-1069"@);
    assert(rows[47].id == "CRYPTO-1070"@);
    assert(rows[48].id == "CRYPTO-1071"@);
    assert(rows[49].id == "CRYPTO-1072"@);
    assert(rows[50].id == "CRYPTO-1073"@);
    assert(rows[51].id == "CRYPTO-1074"@);
    assert(rows[52].id == "CRYPTO-1075"@);
    assert(rows[53].id == "CRYPTO-1138"@);
    assert(rows[54].id == "CRYPTO-1139"@);
    assert(rows[55].id == "CRYPTO-1140"@);
    assert(rows[56].id == "CRYPTO-1141"@);
    assert(rows[57].id == "CRYPTO-1142"@);
    assert(rows[58].id == "CRYPTO-1143"@);
    assert(rows[59].id == "CRYPTO-1144"@);
    assert(rows[60].id == "CRYPTO-1145"@);
    assert(rows[61].id == "CRYPTO-1146"@);
    assert(rows[62].id == "CRYPTO-1147"@);
    assert(rows[63].id == "CRYPTO-1148"@);
    assert(rows[64].id == "CRYPTO-956"@);
    assert(rows[65].id == "CRYPTO-957"@);
}

proof fn lemma_csharp_ids_and_hints()
    ensures
        ids_and_hints_sound(csharp_rules()),
{
    let rows = csharp_rules();
    assert(rows.len() == 9);
    reveal_strlit("CRYPTO-600");
    assert("CRYPTO-600"@.len() == 10);
    assert("CRYPTO-600"@[7] == '6');
    assert("CRYPTO-600"@[8] == '0');
    assert("CRYPTO-600"@[9] == '0');
    reveal_strlit("CRYPTO-601");
    assert("CRYPTO-601"@.len() == 10);
    assert("CRYPTO-601"@[7] == '6');
    assert("CRYPTO-601"@[8] == '0');
    assert("CRYPTO-601"@[9] == '1');
    reveal_strlit("CRYPTO-602");
    assert("CRYPTO-602"@.len() == 10);
    assert("CRYPTO-602"@[7] == '6');
    assert("CRYPTO-602"@[8] == '0');
    assert("CRYPTO-602"@[9] == '2');
    reveal_strlit("CRYPTO-603");
    assert("CRYPTO-603"@.len() == 10);
    assert("CRYPTO-603"@[7] == '6');
    assert("CRYPTO-603"@[8] == '0');
    assert("CRYPTO-603"@[9] == '3');
    reveal_strlit("CRYPTO-604");
    assert("CRYPTO-604"@.len() == 10);
    assert("CRYPTO-604"@[7] == '6');
    assert("CRYPTO-604"@[8] == '0');
    assert("CRYPTO-604"@[9] == '4');
    reveal_strlit("CRYPTO-610");
    assert("CRYPTO-610"@.len() == 10);
    assert("CRYPTO-610"@[7] == '6');
    assert("CRYPTO-610"@[8] == '1');
    assert("CRYPTO-610"@[9] == '0');
    reveal_strlit("CRYPTO-611");
    assert("CRYPTO-611"@.len() == 10);
    assert("CRYPTO-611"@[7] == '6');
    assert("CRYPTO-611"@[8] == '1');
    assert("CRYPTO-611"@[9] == '1');
    reveal_strlit("CRYPTO-620");
    assert("CRYPTO-620"@.len() == 10);
    assert("CRYPTO-620"@[7] == '6');
    assert("CRYPTO-620"@[8] == '2');
    assert("CRYPTO-620"@[9] == '0');
    reveal_strlit("CRYPTO-621");
    assert("CRYPTO-621"@.len() == 10);
    assert("CRYPTO-621"@[7] == '6');
    assert("CRYPTO-621"@[8] == '2');
    assert("CRYPTO-621"@[9] == '1');
    assert(rows[0].id == "CRYPTO-600"@);
    assert(rows[1].id == "CRYPTO-601"@);
    assert(rows[2].id == "CRYPTO-602"@);
    assert(rows[3].id == "CRYPTO-603"@);
    assert(rows[4].id == "CRYPTO-604"@);
    assert(rows[5].id == "CRYPTO-610"@);
    assert(rows[6].id == "CRYPTO-611"@);
    assert(rows[7].id == "CRYPTO-620"@);
    assert(rows[8].id == "CRYPTO-621"@);
}

/// In every built-in pack the rule ids are distinct and every severity hint
/// is one the risk engine understands.
pub proof fn lemma_builtin_packs_ids_and_hints()
    ensures
        ids_and_hints_sound(go_rules()),
        ids_and_hints_sound(python_rules()),
        ids_and_hints_sound(java_rules()),
        ids_and_hints_sound(javascript_rules()),
        ids_and_hints_sound(cpp_rules()),
        ids_and_hints_sound(rust_rules()),
        ids_and_hints_sound(csharp_rules()),
{
    lemma_go_ids_and_hints();
    lemma_python_ids_and_hints();
    lemma_java_ids_and_hints();
    lemma_javascript_ids_and_hints();
    lemma_cpp_ids_and_hints();
    lemma_rust_ids_and_hints();
    lemma_csharp_ids_and_hints();
}

} // verus!
