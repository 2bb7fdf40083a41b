//! Dependency manifests: the catalogue of known cryptographic libraries per
//! ecosystem, and the findings a manifest's declared dependencies raise.
use vstd::prelude::*;
use vstd::string::*;
use crate::classify::{Pattern, regex_compiles, regex_finds};
use crate::findings::{Confidence, Exposure, Finding, Location, UsageContext};
use crate::text::{owned, str_eq};

verus! {

/// Which dependency-manifest ecosystem a catalogue entry belongs to.
#[derive(Debug, Clone, Copy, PartialEq, Eq, Structural)]
pub enum Ecosystem {
    Go,
    Rust,
    Python,
    JavaScript,
    Maven,
}

/// The short label of an ecosystem.
pub open spec fn eco_label(e: Ecosystem) -> Seq<char> {
    match e {
        Ecosystem::Go => "go"@,
        Ecosystem::Rust => "cargo"@,
        Ecosystem::Python => "python"@,
        Ecosystem::JavaScript => "npm"@,
        Ecosystem::Maven => "maven"@,
    }
}

impl Ecosystem {
    /// Short label used in `location.symbol` and messages.
    pub fn label(self) -> (r: &'static str)
        ensures
            r@ == eco_label(self),
    {
        match self {
            Ecosystem::Go => "go",
            Ecosystem::Rust => "cargo",
            Ecosystem::Python => "python",
            Ecosystem::JavaScript => "npm",
            Ecosystem::Maven => "maven",
        }
    }
}

/// The ecosystem a manifest file name belongs to: `go.mod`, `Cargo.toml`,
/// `requirements.txt`, `package.json` and `pom.xml` are read; any other
/// file is not a manifest.
pub open spec fn manifest_ecosystem_of(file_name: Seq<char>) -> Option<Ecosystem> {
    if file_name == "go.mod"@ {
        Some(Ecosystem::Go)
    } else if file_name == "Cargo.toml"@ {
        Some(Ecosystem::Rust)
    } else if file_name == "requirements.txt"@ {
        Some(Ecosystem::Python)
    } else if file_name == "package.json"@ {
        Some(Ecosystem::JavaScript)
    } else if file_name == "pom.xml"@ {
        Some(Ecosystem::Maven)
    } else {
        None
    }
}

/// The ecosystem whose manifest a file of this name is, if any.
pub fn manifest_ecosystem(file_name: &str) -> (r: Option<Ecosystem>)
    ensures
        r == manifest_ecosystem_of(file_name@),
{
    if str_eq(file_name, "go.mod") {
        Some(Ecosystem::Go)
    } else if str_eq(file_name, "Cargo.toml") {
        Some(Ecosystem::Rust)
    } else if str_eq(file_name, "requirements.txt") {
        Some(Ecosystem::Python)
    } else if str_eq(file_name, "package.json") {
        Some(Ecosystem::JavaScript)
    } else if str_eq(file_name, "pom.xml") {
        Some(Ecosystem::Maven)
    } else {
        None
    }
}

/// One entry in the catalogue.
#[derive(Debug, Clone, Copy)]
pub struct CatalogueEntry {
    pub ecosystem: Ecosystem,
    /// Pattern matched against the whole package name.
    pub package_pattern: &'static str,
    /// Canonical algorithm-id, or `"unknown"`.
    pub algorithm_id: &'static str,
    /// Short note surfaced in the finding message.
    pub note: &'static str,
}

fn entry(ecosystem: Ecosystem, package_pattern: &'static str, algorithm_id: &'static str, note: &'static str) -> (e: CatalogueEntry)
    ensures
        e.ecosystem == ecosystem,
        e.package_pattern@ == package_pattern@,
        e.algorithm_id@ == algorithm_id@,
        e.note@ == note@,
{
    CatalogueEntry { ecosystem, package_pattern, algorithm_id, note }
}

/// What a catalogue row holds, as plain values.
pub open spec fn entry_view(e: CatalogueEntry) -> (Ecosystem, Seq<char>, Seq<char>, Seq<char>) {
    (e.ecosystem, e.package_pattern@, e.algorithm_id@, e.note@)
}

/// The rows of the built-in catalogue, in matching order: ecosystem,
/// package-name pattern, algorithm-id, note.
pub open spec fn catalogue_rows() -> Seq<(Ecosystem, Seq<char>, Seq<char>, Seq<char>)> {
    seq![
        (Ecosystem::Go, r"^golang\.org/x/crypto$"@, "unknown"@, "Go extended crypto library (AES, ChaCha20, bcrypt, SSH, …)"@),
        (Ecosystem::Go, r"^github\.com/golang-jwt/jwt(/v\d+)?$"@, "unknown"@, "JWT library — HMAC/RSA/ECDSA signing"@),
        (Ecosystem::Go, r"^github\.com/pkg/sftp$"@, "unknown"@, "SFTP client/server — uses golang.org/x/crypto/ssh"@),
        (Ecosystem::Go, r"^google\.golang\.org/grpc$"@, "unknown"@, "gRPC-Go — TLS via crypto/tls or custom credentials"@),
        (Ecosystem::Rust, r"^ring$"@, "unknown"@, "ring — safe Rust bindings over BoringSSL primitives (RSA, ECDSA, AES-GCM, …)"@),
        (Ecosystem::Rust, r"^rustls$"@, "unknown"@, "rustls — modern TLS 1.2/1.3 implementation in Rust"@),
        (Ecosystem::Rust, r"^rustls-post-quantum$"@, "x25519-mlkem768"@, "rustls post-quantum extension — X25519MLKEM768 hybrid KEM"@),
        (Ecosystem::Rust, r"^aws-lc-rs$"@, "unknown"@, "aws-lc-rs — AWS Libcrypto (ML-KEM, ML-DSA, classical crypto)"@),
        (Ecosystem::Rust, r"^boring$"@, "unknown"@, "boring — Rust bindings to BoringSSL"@),
        (Ecosystem::Rust, r"^openssl$"@, "unknown"@, "openssl crate — Rust bindings to OpenSSL"@),
        (Ecosystem::Rust, r"^webpki$"@, "unknown"@, "webpki — Web PKI certificate path validation"@),
        (Ecosystem::Rust, r"^x509-parser$"@, "unknown"@, "x509-parser — X.509 certificate parser"@),
        (Ecosystem::Rust, r"^tls-parser$"@, "unknown"@, "tls-parser — TLS record/handshake parser"@),
        (Ecosystem::Rust, r"^tokio-rustls$"@, "unknown"@, "tokio-rustls — async TLS for Tokio via rustls"@),
        (Ecosystem::Rust, r"^sha2$"@, "sha-256"@, "sha2 — SHA-224/256/384/512 (RustCrypto)"@),
        (Ecosystem::Rust, r"^sha-1$"@, "sha-1"@, "sha-1 crate — SHA-1 (broken; avoid for new use)"@),
        (Ecosystem::Rust, r"^md-5$"@, "md5"@, "md-5 crate — MD5 (broken; avoid for new use)"@),
        (Ecosystem::Rust, r"^rsa$"@, "rsa-2048"@, "rsa crate — pure-Rust RSA implementation"@),
        (Ecosystem::Rust, r"^ed25519-dalek$"@, "ed25519"@, "ed25519-dalek — Ed25519 signatures"@),
        (Ecosystem::Rust, r"^x25519-dalek$"@, "x25519"@, "x25519-dalek — X25519 Diffie-Hellman"@),
        (Ecosystem::Rust, r"^p256$"@, "ecdsa-p256"@, "p256 crate — P-256 (NIST secp256r1) ECDSA/ECDH"@),
        (Ecosystem::Rust, r"^p384$"@, "ecdsa-p384"@, "p384 crate — P-384 (NIST secp384r1) ECDSA/ECDH"@),
        (Ecosystem::Rust, r"^k256$"@, "ecdsa-secp256k1"@, "k256 crate — secp256k1 (Bitcoin/Ethereum curve)"@),
        (Ecosystem::Rust, r"^pem$"@, "unknown"@, "pem crate — PEM encoding/decoding for certificate material"@),
        (Ecosystem::Rust, r"^jsonwebtoken$"@, "unknown"@, "jsonwebtoken — JWT encode/decode (HMAC, RSA, ECDSA)"@),
        (Ecosystem::Rust, r"^ml-kem$"@, "ml-kem-768"@, "ml-kem crate — ML-KEM (FIPS 203) pure-Rust implementation"@),
        (Ecosystem::Rust, r"^ml-dsa$"@, "ml-dsa-65"@, "ml-dsa crate — ML-DSA (FIPS 204) pure-Rust implementation"@),
        (Ecosystem::Rust, r"^slh-dsa$"@, "slh-dsa-sha2-128s"@, "slh-dsa crate — SLH-DSA (FIPS 205) pure-Rust implementation"@),
        (Ecosystem::Python, r"^cryptography$"@, "unknown"@, "cryptography — Python cryptography primitives (OpenSSL backend)"@),
        (Ecosystem::Python, r"^pycryptodome$"@, "unknown"@, "pycryptodome — drop-in replacement for PyCrypto"@),
        (Ecosystem::Python, r"^pycrypto$"@, "unknown"@, "pycrypto — legacy crypto library (unmaintained; prefer pycryptodome)"@),
        (Ecosystem::Python, r"^pyOpenSSL$"@, "unknown"@, "pyOpenSSL — Python bindings to OpenSSL"@),
        (Ecosystem::Python, r"^[Pp][Yy][Jj][Ww][Tt]$"@, "unknown"@, "pyjwt — JWT encode/decode (HMAC, RSA, ECDSA)"@),
        (Ecosystem::Python, r"^pynacl$"@, "unknown"@, "pynacl — Python bindings to libsodium (NaCl)"@),
        (Ecosystem::Python, r"^python-jose$"@, "unknown"@, "python-jose — JOSE (JWT/JWS/JWE/JWK) implementation"@),
        (Ecosystem::JavaScript, r"^node-forge$"@, "unknown"@, "node-forge — pure-JS TLS, PKI, and crypto library"@),
        (Ecosystem::JavaScript, r"^jsonwebtoken$"@, "unknown"@, "jsonwebtoken — JWT encode/decode for Node.js"@),
        (Ecosystem::JavaScript, r"^crypto-js$"@, "unknown"@, "crypto-js — standard crypto algorithms in JavaScript"@),
        (Ecosystem::JavaScript, r"^bcryptjs$"@, "unknown"@, "bcryptjs — bcrypt password hashing in pure JavaScript"@),
        (Ecosystem::JavaScript, r"^tweetnacl$"@, "unknown"@, "tweetnacl — NaCl port in JavaScript (X25519, Ed25519, …)"@),
        (Ecosystem::Maven, r"^org\.bouncycastle:bcprov-jdk18on$"@, "unknown"@, "Bouncy Castle provider — full JCE/JCA crypto provider"@),
        (Ecosystem::Maven, r"^org\.bouncycastle:bcpkix-jdk18on$"@, "unknown"@, "Bouncy Castle PKIX — X.509/CMS/PKCS extensions"@),
        (Ecosystem::Maven, r"^io\.netty:netty-handler$"@, "unknown"@, "Netty handler — includes SSL/TLS handler"@),
        (Ecosystem::Maven, r"^org\.eclipse\.jetty:jetty-server$"@, "unknown"@, "Jetty server — embedded HTTP/HTTPS server"@),
        (Ecosystem::Maven, r"^commons-codec:commons-codec$"@, "unknown"@, "Apache Commons Codec — Base64, Hex, DigestUtils"@),
    ]
}

/// The Rust crates the catalogue names exactly, with the algorithm each
/// implements: the MD5, SHA-1 and SHA-2 digests, RSA, the Edwards and
/// Montgomery curves, the NIST and secp256k1 curves, the FIPS 203/204/205
/// post-quantum schemes and rustls' hybrid key exchange.
pub open spec fn rust_crypto_crates() -> Seq<(Seq<char>, Seq<char>)> {
    seq![
        ("rustls-post-quantum"@, "x25519-mlkem768"@),
        ("sha2"@, "sha-256"@),
        ("sha-1"@, "sha-1"@),
        ("md-5"@, "md5"@),
        ("rsa"@, "rsa-2048"@),
        ("ed25519-dalek"@, "ed25519"@),
        ("x25519-dalek"@, "x25519"@),
        ("p256"@, "ecdsa-p256"@),
        ("p384"@, "ecdsa-p384"@),
        ("k256"@, "ecdsa-secp256k1"@),
        ("ml-kem"@, "ml-kem-768"@),
        ("ml-dsa"@, "ml-dsa-65"@),
        ("slh-dsa"@, "slh-dsa-sha2-128s"@),
    ]
}

/// For every crate of [`rust_crypto_crates`], the catalogue has a Rust row
/// matching exactly that crate's name, and the row reports the algorithm
/// the crate implements: `md-5` is reported as `md5`, `sha2` as `sha-256`.
pub proof fn lemma_catalogue_reports_crate_algorithms(k: int)
    requires
        0 <= k < rust_crypto_crates().len(),
    ensures
        exists|i: int|
            0 <= i < catalogue_rows().len() && #[trigger] catalogue_rows()[i].0 == Ecosystem::Rust && catalogue_rows()[i].1
                == "^"@ + rust_crypto_crates()[k].0 + "$"@ && catalogue_rows()[i].2 == rust_crypto_crates()[k].1,
{
    let rows = catalogue_rows();
    let crates = rust_crypto_crates();
    reveal_strlit("$");
    reveal_strlit("^");
    reveal_strlit("^ed25519-dalek$");
    reveal_strlit("^k256$");
    reveal_strlit("^md-5$");
    reveal_strlit("^ml-dsa$");
    reveal_strlit("^ml-kem$");
    reveal_strlit("^p256$");
    reveal_strlit("^p384$");
    reveal_strlit("^rsa$");
    reveal_strlit("^rustls-post-quantum$");
    reveal_strlit("^sha-1$");
    reveal_strlit("^sha2$");
    reveal_strlit("^slh-dsa$");
    reveal_strlit("^x25519-dalek$");
    reveal_strlit("ed25519-dalek");
    reveal_strlit("k256");
    reveal_strlit("md-5");
    reveal_strlit("ml-dsa");
    reveal_strlit("ml-kem");
    reveal_strlit("p256");
    reveal_strlit("p384");
    reveal_strlit("rsa");
    reveal_strlit("rustls-post-quantum");
    reveal_strlit("sha-1");
    reveal_strlit("sha2");
    reveal_strlit("slh-dsa");
    reveal_strlit("x25519-dalek");
    assert("$"@.len() == 1);
    assert("$"@[0] == '$');
    assert("^"@.len() == 1);
    assert("^"@[0] == '^');
    assert("^ed25519-dalek$"@.len() == 15);
    assert("^ed25519-dalek$"@[0] == '^');
    assert("^ed25519-dalek$"@[1] == 'e');
    assert("^ed25519-dalek$"@[2] == 'd');
    assert("^ed25519-dalek$"@[3] == '2');
    assert("^ed25519-dalek$"@[4] == '5');
    assert("^ed25519-dalek$"@[5] == '5');
    assert("^ed25519-dalek$"@[6] == '1');
    assert("^ed25519-dalek$"@[7] == '9');
    assert("^ed25519-dalek$"@[8] == '-');
    assert("^ed25519-dalek$"@[9] == 'd');
    assert("^ed25519-dalek$"@[10] == 'a');
    assert("^ed25519-dalek$"@[11] == 'l');
    assert("^ed25519-dalek$"@[12] == 'e');
    assert("^ed25519-dalek$"@[13] == 'k');
    assert("^ed25519-dalek$"@[14] == '$');
    assert("^k256$"@.len() == 6);
    assert("^k256$"@[0] == '^');
    assert("^k256$"@[1] == 'k');
    assert("^k256$"@[2] == '2');
    assert("^k256$"@[3] == '5');
    assert("^k256$"@[4] == '6');
    assert("^k256$"@[5] == '$');
    assert("^md-5$"@.len() == 6);
    assert("^md-5$"@[0] == '^');
    assert("^md-5$"@[1] == 'm');
    assert("^md-5$"@[2] == 'd');
    assert("^md-5$"@[3] == '-');
    assert("^md-5$"@[4] == '5');
    assert("^md-5$"@[5] == '$');
    assert("^ml-dsa$"@.len() == 8);
    assert("^ml-dsa$"@[0] == '^');
    assert("^ml-dsa$"@[1] == 'm');
    assert("^ml-dsa$"@[2] == 'l');
    assert("^ml-dsa$"@[3] == '-');
    assert("^ml-dsa$"@[4] == 'd');
    assert("^ml-dsa$"@[5] == 's');
    assert("^ml-dsa$"@[6] == 'a');
    assert("^ml-dsa$"@[7] == '$');
    assert("^ml-kem$"@.len() == 8);
    assert("^ml-kem$"@[0] == '^');
    assert("^ml-kem$"@[1] == 'm');
    assert("^ml-kem$"@[2] == 'l');
    assert("^ml-kem$"@[3] == '-');
    assert("^ml-kem$"@[4] == 'k');
    assert("^ml-kem$"@[5] == 'e');
    assert("^ml-kem$"@[6] == 'm');
    assert("^ml-kem$"@[7] == '$');
    assert("^p256$"@.len() == 6);
    assert("^p256$"@[0] == '^');
    assert("^p256$"@[1] == 'p');
    assert("^p256$"@[2] == '2');
    assert("^p256$"@[3] == '5');
    assert("^p256$"@[4] == '6');
    assert("^p256$"@[5] == '$');
    assert("^p384$"@.len() == 6);
    assert("^p384$"@[0] == '^');
    assert("^p384$"@[1] == 'p');
    assert("^p384$"@[2] == '3');
    assert("^p384$"@[3] == '8');
    assert("^p384$"@[4] == '4');
    assert("^p384$"@[5] == '$');
    assert("^rsa$"@.len() == 5);
    assert("^rsa$"@[0] == '^');
    assert("^rsa$"@[1] == 'r');
    assert("^rsa$"@[2] == 's');
    assert("^rsa$"@[3] == 'a');
    assert("^rsa$"@[4] == '$');
    assert("^rustls-post-quantum$"@.len() == 21);
    assert("^rustls-post-quantum$"@[0] == '^');
    assert("^rustls-post-quantum$"@[1] == 'r');
    assert("^rustls-post-quantum$"@[2] == 'u');
    assert("^rustls-post-quantum$"@[3] == 's');
    assert("^rustls-post-quantum$"@[4] == 't');
    assert("^rustls-post-quantum$"@[5] == 'l');
    assert("^rustls-post-quantum$"@[6] == 's');
    assert("^rustls-post-quantum$"@[7] == '-');
    assert("^rustls-post-quantum$"@[8] == 'p');
    assert("^rustls-post-quantum$"@[9] == 'o');
    assert("^rustls-post-quantum$"@[10] == 's');
    assert("^rustls-post-quantum$"@[11] == 't');
    assert("^rustls-post-quantum$"@[12] == '-');
    assert("^rustls-post-quantum$"@[13] == 'q');
    assert("^rustls-post-quantum$"@[14] == 'u');
    assert("^rustls-post-quantum$"@[15] == 'a');
    assert("^rustls-post-quantum$"@[16] == 'n');
    assert("^rustls-post-quantum$"@[17] == 't');
    assert("^rustls-post-quantum$"@[18] == 'u');
    assert("^rustls-post-quantum$"@[19] == 'm');
    assert("^rustls-post-quantum$"@[20] == '$');
    assert("^sha-1$"@.len() == 7);
    assert("^sha-1$"@[0] == '^');
    assert("^sha-1$"@[1] == 's');
    assert("^sha-1$"@[2] == 'h');
    assert("^sha-1$"@[3] == 'a');
    assert("^sha-1$"@[4] == '-');
    assert("^sha-1$"@[5] == '1');
    assert("^sha-1$"@[6] == '$');
    assert("^sha2$"@.len() == 6);
    assert("^sha2$"@[0] == '^');
    assert("^sha2$"@[1] == 's');
    assert("^sha2$"@[2] == 'h');
    assert("^sha2$"@[3] == 'a');
    assert("^sha2$"@[4] == '2');
    assert("^sha2$"@[5] == '$');
    assert("^slh-dsa$"@.len() == 9);
    assert("^slh-dsa$"@[0] == '^');
    assert("^slh-dsa$"@[1] == 's');
    assert("^slh-dsa$"@[2] == 'l');
    assert("^slh-dsa$"@[3] == 'h');
    assert("^slh-dsa$"@[4] == '-');
    assert("^slh-dsa$"@[5] == 'd');
    assert("^slh-dsa$"@[6] == 's');
    assert("^slh-dsa$"@[7] == 'a');
    assert("^slh-dsa$"@[8] == '$');
    assert("^x25519-dalek$"@.len() == 14);
    assert("^x25519-dalek$"@[0] == '^');
    assert("^x25519-dalek$"@[1] == 'x');
    assert("^x25519-dalek$"@[2] == '2');
    assert("^x25519-dalek$"@[3] == '5');
    assert("^x25519-dalek$"@[4] == '5');
    assert("^x25519-dalek$"@[5] == '1');
    assert("^x25519-dalek$"@[6] == '9');
    assert("^x25519-dalek$"@[7] == '-');
    assert("^x25519-dalek$"@[8] == 'd');
    assert("^x25519-dalek$"@[9] == 'a');
    assert("^x25519-dalek$"@[10] == 'l');
    assert("^x25519-dalek$"@[11] == 'e');
    assert("^x25519-dalek$"@[12] == 'k');
    assert("^x25519-dalek$"@[13] == '$');
    assert("ed25519-dalek"@.len() == 13);
    assert("ed25519-dalek"@[0] == 'e');
    assert("ed25519-dalek"@[1] == 'd');
    assert("ed25519-dalek"@[2] == '2');
    assert("ed25519-dalek"@[3] == '5');
    assert("ed25519-dalek"@[4] == '5');
    assert("ed25519-dalek"@[5] == '1');
    assert("ed25519-dalek"@[6] == '9');
    assert("ed25519-dalek"@[7] == '-');
    assert("ed25519-dalek"@[8] == 'd');
    assert("ed25519-dalek"@[9] == 'a');
    assert("ed25519-dalek"@[10] == 'l');
    assert("ed25519-dalek"@[11] == 'e');
    assert("ed25519-dalek"@[12] == 'k');
    assert("k256"@.len() == 4);
    assert("k256"@[0] == 'k');
    assert("k256"@[1] == '2');
    assert("k256"@[2] == '5');
    assert("k256"@[3] == '6');
    assert("md-5"@.len() == 4);
    assert("md-5"@[0] == 'm');
    assert("md-5"@[1] == 'd');
    assert("md-5"@[2] == '-');
    assert("md-5"@[3] == '5');
    assert("ml-dsa"@.len() == 6);
    assert("ml-dsa"@[0] == 'm');
    assert("ml-dsa"@[1] == 'l');
    assert("ml-dsa"@[2] == '-');
    assert("ml-dsa"@[3] == 'd');
    assert("ml-dsa"@[4] == 's');
    assert("ml-dsa"@[5] == 'a');
    assert("ml-kem"@.len() == 6);
    assert("ml-kem"@[0] == 'm');
    assert("ml-kem"@[1] == 'l');
    assert("ml-kem"@[2] == '-');
    assert("ml-kem"@[3] == 'k');
    assert("ml-kem"@[4] == 'e');
    assert("ml-kem"@[5] == 'm');
    assert("p256"@.len() == 4);
    assert("p256"@[0] == 'p');
    assert("p256"@[1] == '2');
    assert("p256"@[2] == '5');
    assert("p256"@[3] == '6');
    assert("p384"@.len() == 4);
    assert("p384"@[0] == 'p');
    assert("p384"@[1] == '3');
    assert("p384"@[2] == '8');
    assert("p384"@[3] == '4');
    assert("rsa"@.len() == 3);
    assert("rsa"@[0] == 'r');
    assert("rsa"@[1] == 's');
    assert("rsa"@[2] == 'a');
    assert("rustls-post-quantum"@.len() == 19);
    assert("rustls-post-quantum"@[0] == 'r');
    assert("rustls-post-quantum"@[1] == 'u');
    assert("rustls-post-quantum"@[2] == 's');
    assert("rustls-post-quantum"@[3] == 't');
    assert("rustls-post-quantum"@[4] == 'l');
    assert("rustls-post-quantum"@[5] == 's');
    assert("rustls-post-quantum"@[6] == '-');
    assert("rustls-post-quantum"@[7] == 'p');
    assert("rustls-post-quantum"@[8] == 'o');
    assert("rustls-post-quantum"@[9] == 's');
    assert("rustls-post-quantum"@[10] == 't');
    assert("rustls-post-quantum"@[11] == '-');
    assert("rustls-post-quantum"@[12] == 'q');
    assert("rustls-post-quantum"@[13] == 'u');
    assert("rustls-post-quantum"@[14] == 'a');
    assert("rustls-post-quantum"@[15] == 'n');
    assert("rustls-post-quantum"@[16] == 't');
    assert("rustls-post-quantum"@[17] == 'u');
    assert("rustls-post-quantum"@[18] == 'm');
    assert("sha-1"@.len() == 5);
    assert("sha-1"@[0] == 's');
    assert("sha-1"@[1] == 'h');
    assert("sha-1"@[2] == 'a');
    assert("sha-1"@[3] == '-');
    assert("sha-1"@[4] == '1');
    assert("sha2"@.len() == 4);
    assert("sha2"@[0] == 's');
    assert("sha2"@[1] == 'h');
    assert("sha2"@[2] == 'a');
    assert("sha2"@[3] == '2');
    assert("slh-dsa"@.len() == 7);
    assert("slh-dsa"@[0] == 's');
    assert("slh-dsa"@[1] == 'l');
    assert("slh-dsa"@[2] == 'h');
    assert("slh-dsa"@[3] == '-');
    assert("slh-dsa"@[4] == 'd');
    assert("slh-dsa"@[5] == 's');
    assert("slh-dsa"@[6] == 'a');
    assert("x25519-dalek"@.len() == 12);
    assert("x25519-dalek"@[0] == 'x');
    assert("x25519-dalek"@[1] == '2');
    assert("x25519-dalek"@[2] == '5');
    assert("x25519-dalek"@[3] == '5');
    assert("x25519-dalek"@[4] == '1');
    assert("x25519-dalek"@[5] == '9');
    assert("x25519-dalek"@[6] == '-');
    assert("x25519-dalek"@[7] == 'd');
    assert("x25519-dalek"@[8] == 'a');
    assert("x25519-dalek"@[9] == 'l');
    assert("x25519-dalek"@[10] == 'e');
    assert("x25519-dalek"@[11] == 'k');
    if k == 0 {
        assert(rows[6].1 =~= "^"@ + "rustls-post-quantum"@ + "$"@);
        assert(crates[0] == ("rustls-post-quantum"@, "x25519-mlkem768"@));
        assert(rows[6].0 == Ecosystem::Rust && rows[6].2 == "x25519-mlkem768"@);
    }
    if k == 1 {
        assert(rows[14].1 =~= "^"@ + "sha2"@ + "$"@);
        assert(crates[1] == ("sha2"@, "sha-256"@));
        assert(rows[14].0 == Ecosystem::Rust && rows[14].2 == "sha-256"@);
    }
    if k == 2 {
        assert(rows[15].1 =~= "^"@ + "sha-1"@ + "$"@);
        assert(crates[2] == ("sha-1"@, "sha-1"@));
        assert(rows[15].0 == Ecosystem::Rust && rows[15].2 == "sha-1"@);
    }
    if k == 3 {
        assert(rows[16].1 =~= "^"@ + "md-5"@ + "$"@);
        assert(crates[3] == ("md-5"@, "md5"@));
        assert(rows[16].0 == Ecosystem::Rust && rows[16].2 == "md5"@);
    }
    if k == 4 {
        assert(rows[17].1 =~= "^"@ + "rsa"@ + "$"@);
        assert(crates[4] == ("rsa"@, "rsa-2048"@));
        assert(rows[17].0 == Ecosystem::Rust && rows[17].2 == "rsa-2048"@);
    }
    if k == 5 {
        assert(rows[18].1 =~= "^"@ + "ed25519-dalek"@ + "$"@);
        assert(crates[5] == ("ed25519-dalek"@, "ed25519"@));
        assert(rows[18].0 == Ecosystem::Rust && rows[18].2 == "ed25519"@);
    }
    if k == 6 {
        assert(rows[19].1 =~= "^"@ + "x25519-dalek"@ + "$"@);
        assert(crates[6] == ("x25519-dalek"@, "x25519"@));
        assert(rows[19].0 == Ecosystem::Rust && rows[19].2 == "x25519"@);
    }
    if k == 7 {
        assert(rows[20].1 =~= "^"@ + "p256"@ + "$"@);
        assert(crates[7] == ("p256"@, "ecdsa-p256"@));
        assert(rows[20].0 == Ecosystem::Rust && rows[20].2 == "ecdsa-p256"@);
    }
    if k == 8 {
        assert(rows[21].1 =~= "^"@ + "p384"@ + "$"@);
        assert(crates[8] == ("p384"@, "ecdsa-p384"@));
        assert(rows[21].0 == Ecosystem::Rust && rows[21].2 == "ecdsa-p384"@);
    }
    if k == 9 {
        assert(rows[22].1 =~= "^"@ + "k256"@ + "$"@);
        assert(crates[9] == ("k256"@, "ecdsa-secp256k1"@));
        assert(rows[22].0 == Ecosystem::Rust && rows[22].2 == "ecdsa-secp256k1"@);
    }
    if k == 10 {
        assert(rows[25].1 =~= "^"@ + "ml-kem"@ + "$"@);
        assert(crates[10] == ("ml-kem"@, "ml-kem-768"@));
        assert(rows[25].0 == Ecosystem::Rust && rows[25].2 == "ml-kem-768"@);
    }
    if k == 11 {
        assert(rows[26].1 =~= "^"@ + "ml-dsa"@ + "$"@);
        assert(crates[11] == ("ml-dsa"@, "ml-dsa-65"@));
        assert(rows[26].0 == Ecosystem::Rust && rows[26].2 == "ml-dsa-65"@);
    }
    if k == 12 {
        assert(rows[27].1 =~= "^"@ + "slh-dsa"@ + "$"@);
        assert(crates[12] == ("slh-dsa"@, "slh-dsa-sha2-128s"@));
        assert(rows[27].0 == Ecosystem::Rust && rows[27].2 == "slh-dsa-sha2-128s"@);
    }
}

/// The built-in catalogue, in matching order.
pub fn catalogue() -> (r: Vec<CatalogueEntry>)
    ensures
        r@.map_values(|e: CatalogueEntry| entry_view(e)) == catalogue_rows(),
{
    let r = vec![
        entry(Ecosystem::Go, r"^golang\.org/x/crypto$", "unknown", "Go extended crypto library (AES, ChaCha20, bcrypt, SSH, …)"),
        entry(Ecosystem::Go, r"^github\.com/golang-jwt/jwt(/v\d+)?$", "unknown", "JWT library — HMAC/RSA/ECDSA signing"),
        entry(Ecosystem::Go, r"^github\.com/pkg/sftp$", "unknown", "SFTP client/server — uses golang.org/x/crypto/ssh"),
        entry(Ecosystem::Go, r"^google\.golang\.org/grpc$", "unknown", "gRPC-Go — TLS via crypto/tls or custom credentials"),
        entry(Ecosystem::Rust, r"^ring$", "unknown", "ring — safe Rust bindings over BoringSSL primitives (RSA, ECDSA, AES-GCM, …)"),
        entry(Ecosystem::Rust, r"^rustls$", "unknown", "rustls — modern TLS 1.2/1.3 implementation in Rust"),
        entry(Ecosystem::Rust, r"^rustls-post-quantum$", "x25519-mlkem768", "rustls post-quantum extension — X25519MLKEM768 hybrid KEM"),
        entry(Ecosystem::Rust, r"^aws-lc-rs$", "unknown", "aws-lc-rs — AWS Libcrypto (ML-KEM, ML-DSA, classical crypto)"),
        entry(Ecosystem::Rust, r"^boring$", "unknown", "boring — Rust bindings to BoringSSL"),
        entry(Ecosystem::Rust, r"^openssl$", "unknown", "openssl crate — Rust bindings to OpenSSL"),
        entry(Ecosystem::Rust, r"^webpki$", "unknown", "webpki — Web PKI certificate path validation"),
        entry(Ecosystem::Rust, r"^x509-parser$", "unknown", "x509-parser — X.509 certificate parser"),
        entry(Ecosystem::Rust, r"^tls-parser$", "unknown", "tls-parser — TLS record/handshake parser"),
        entry(Ecosystem::Rust, r"^tokio-rustls$", "unknown", "tokio-rustls — async TLS for Tokio via rustls"),
        entry(Ecosystem::Rust, r"^sha2$", "sha-256", "sha2 — SHA-224/256/384/512 (RustCrypto)"),
        entry(Ecosystem::Rust, r"^sha-1$", "sha-1", "sha-1 crate — SHA-1 (broken; avoid for new use)"),
        entry(Ecosystem::Rust, r"^md-5$", "md5", "md-5 crate — MD5 (broken; avoid for new use)"),
        entry(Ecosystem::Rust, r"^rsa$", "rsa-2048", "rsa crate — pure-Rust RSA implementation"),
        entry(Ecosystem::Rust, r"^ed25519-dalek$", "ed25519", "ed25519-dalek — Ed25519 signatures"),
        entry(Ecosystem::Rust, r"^x25519-dalek$", "x25519", "x25519-dalek — X25519 Diffie-Hellman"),
        entry(Ecosystem::Rust, r"^p256$", "ecdsa-p256", "p256 crate — P-256 (NIST secp256r1) ECDSA/ECDH"),
        entry(Ecosystem::Rust, r"^p384$", "ecdsa-p384", "p384 crate — P-384 (NIST secp384r1) ECDSA/ECDH"),
        entry(Ecosystem::Rust, r"^k256$", "ecdsa-secp256k1", "k256 crate — secp256k1 (Bitcoin/Ethereum curve)"),
        entry(Ecosystem::Rust, r"^pem$", "unknown", "pem crate — PEM encoding/decoding for certificate material"),
        entry(Ecosystem::Rust, r"^jsonwebtoken$", "unknown", "jsonwebtoken — JWT encode/decode (HMAC, RSA, ECDSA)"),
        entry(Ecosystem::Rust, r"^ml-kem$", "ml-kem-768", "ml-kem crate — ML-KEM (FIPS 203) pure-Rust implementation"),
        entry(Ecosystem::Rust, r"^ml-dsa$", "ml-dsa-65", "ml-dsa crate — ML-DSA (FIPS 204) pure-Rust implementation"),
        entry(Ecosystem::Rust, r"^slh-dsa$", "slh-dsa-sha2-128s", "slh-dsa crate — SLH-DSA (FIPS 205) pure-Rust implementation"),
        entry(Ecosystem::Python, r"^cryptography$", "unknown", "cryptography — Python cryptography primitives (OpenSSL backend)"),
        entry(Ecosystem::Python, r"^pycryptodome$", "unknown", "pycryptodome — drop-in replacement for PyCrypto"),
        entry(Ecosystem::Python, r"^pycrypto$", "unknown", "pycrypto — legacy crypto library (unmaintained; prefer pycryptodome)"),
        entry(Ecosystem::Python, r"^pyOpenSSL$", "unknown", "pyOpenSSL — Python bindings to OpenSSL"),
        entry(Ecosystem::Python, r"^[Pp][Yy][Jj][Ww][Tt]$", "unknown", "pyjwt — JWT encode/decode (HMAC, RSA, ECDSA)"),
        entry(Ecosystem::Python, r"^pynacl$", "unknown", "pynacl — Python bindings to libsodium (NaCl)"),
        entry(Ecosystem::Python, r"^python-jose$", "unknown", "python-jose — JOSE (JWT/JWS/JWE/JWK) implementation"),
        entry(Ecosystem::JavaScript, r"^node-forge$", "unknown", "node-forge — pure-JS TLS, PKI, and crypto library"),
        entry(Ecosystem::JavaScript, r"^jsonwebtoken$", "unknown", "jsonwebtoken — JWT encode/decode for Node.js"),
        entry(Ecosystem::JavaScript, r"^crypto-js$", "unknown", "crypto-js — standard crypto algorithms in JavaScript"),
        entry(Ecosystem::JavaScript, r"^bcryptjs$", "unknown", "bcryptjs — bcrypt password hashing in pure JavaScript"),
        entry(Ecosystem::JavaScript, r"^tweetnacl$", "unknown", "tweetnacl — NaCl port in JavaScript (X25519, Ed25519, …)"),
        entry(Ecosystem::Maven, r"^org\.bouncycastle:bcprov-jdk18on$", "unknown", "Bouncy Castle provider — full JCE/JCA crypto provider"),
        entry(Ecosystem::Maven, r"^org\.bouncycastle:bcpkix-jdk18on$", "unknown", "Bouncy Castle PKIX — X.509/CMS/PKCS extensions"),
        entry(Ecosystem::Maven, r"^io\.netty:netty-handler$", "unknown", "Netty handler — includes SSL/TLS handler"),
        entry(Ecosystem::Maven, r"^org\.eclipse\.jetty:jetty-server$", "unknown", "Jetty server — embedded HTTP/HTTPS server"),
        entry(Ecosystem::Maven, r"^commons-codec:commons-codec$", "unknown", "Apache Commons Codec — Base64, Hex, DigestUtils"),
    ];
    assert(r@.map_values(|e: CatalogueEntry| entry_view(e)) =~= catalogue_rows());
    r
}

/// One declared dependency of a manifest.
#[derive(Debug, Clone)]
pub struct RawDep {
    /// Package name; `groupId:artifactId` for Maven.
    pub name: String,
    /// Declared version, empty when the manifest gives none.
    pub version: String,
    /// 1-based line of the declaration.
    pub line: u32,
    /// The declaring line.
    pub snippet: String,
}

/// Why a dependency scan stopped.
#[derive(Debug, Clone)]
pub enum ScanError {
    /// A manifest could not be read.
    Io(String),
    /// A manifest could not be parsed.
    Parse { manifest: String, reason: String },
    /// The directory walk failed.
    Walk(String),
    /// A catalogue pattern does not compile.
    Pattern(String),
}

/// `ecosystem:name`, the symbol a dependency finding carries.
pub open spec fn symbol_text(e: Ecosystem, name: Seq<char>) -> Seq<char> {
    eco_label(e) + ":"@ + name
}

/// The symbol a dependency finding carries.
pub fn build_symbol(ecosystem: Ecosystem, name: &str) -> (r: String)
    ensures
        r@ == symbol_text(ecosystem, name@),
{
    let mut s = owned(ecosystem.label());
    s.append(":");
    s.append(name);
    s
}

/// A compiled catalogue entry.
pub struct CompiledEntry {
    regex: Pattern,
    entry: CatalogueEntry,
}

/// Scanner that matches declared dependencies against the catalogue.
pub struct DepScanner {
    entries: Vec<CompiledEntry>,
}

/// The first catalogue row of ecosystem `eco` whose pattern matches `name`,
/// from row `i` on.
pub open spec fn first_entry(rows: Seq<CatalogueEntry>, eco: Ecosystem, name: Seq<char>, i: int) -> Option<int>
    decreases rows.len() - i,
{
    if i < 0 || i >= rows.len() {
        None
    } else if rows[i].ecosystem == eco && regex_finds(rows[i].package_pattern@, name) {
        Some(i)
    } else {
        first_entry(rows, eco, name, i + 1)
    }
}

/// Which dependency matched which catalogue row, dependencies in order; a
/// dependency matches at most one row.
pub open spec fn manifest_hits(rows: Seq<CatalogueEntry>, deps: Seq<RawDep>, eco: Ecosystem) -> Seq<(int, int)>
    decreases deps.len(),
{
    if deps.len() == 0 {
        Seq::empty()
    } else {
        let prev = manifest_hits(rows, deps.drop_last(), eco);
        match first_entry(rows, eco, deps.last().name@, 0) {
            Some(k) => prev.push((deps.len() - 1, k)),
            None => prev,
        }
    }
}

/// The version text a message shows.
pub open spec fn version_label(v: Seq<char>) -> Seq<char> {
    if v.len() == 0 {
        "(unknown version)"@
    } else {
        v
    }
}

/// The finding a dependency matching a catalogue entry raises.
pub open spec fn dep_finding(f: Finding, dep: RawDep, e: CatalogueEntry, eco: Ecosystem, path: Seq<char>) -> bool {
    &&& f.rule_id@ == "DEP-001"@
    &&& f.algorithm_id@ == e.algorithm_id@
    &&& f.location.location@ == path
    &&& f.location.line == Some(dep.line)
    &&& f.location.offset is None
    &&& (f.location.symbol matches Some(s) && s@ == symbol_text(eco, dep.name@))
    &&& (f.location.snippet matches Some(s) && s@ == dep.snippet@)
    &&& f.message@ == eco_label(eco) + " package "@ + dep.name@ + " "@ + version_label(dep.version@)
        + " matches catalogue entry: "@ + e.note@
    &&& f.confidence == Confidence::TypeName
    &&& f.usage_context == UsageContext::Unknown
    &&& f.exposure == Exposure::InternalService
    &&& f.shelf_life_bucket@ == "short"@
    &&& !f.hndl_critical
}

impl DepScanner {
    /// The catalogue rows the scanner matches against, in order.
    pub closed spec fn rows(&self) -> Seq<CatalogueEntry> {
        self.entries@.map_values(|c: CompiledEntry| c.entry)
    }

    #[verifier::type_invariant]
    closed spec fn wf(&self) -> bool {
        forall|i: int| 0 <= i < self.entries@.len() ==> (#[trigger] self.entries@[i]).regex.source_view()
            == self.entries@[i].entry.package_pattern@
    }

    /// A scanner over the given catalogue rows; a row whose pattern does not
    /// compile is refused.
    pub fn with_entries(rows: Vec<CatalogueEntry>) -> (r: Result<DepScanner, ScanError>)
        ensures
            r is Ok <==> forall|i: int| 0 <= i < rows@.len() ==> regex_compiles(#[trigger] rows@[i].package_pattern@),
            r matches Ok(s) ==> s.rows() == rows@,
    {
        let mut entries: Vec<CompiledEntry> = Vec::new();
        let mut i: usize = 0;
        while i < rows.len()
            invariant
                i <= rows@.len(),
                entries@.len() == i,
                forall|a: int| 0 <= a < i ==> regex_compiles(#[trigger] rows@[a].package_pattern@),
                forall|a: int| 0 <= a < i ==> (#[trigger] entries@[a]).entry == rows@[a]
                    && entries@[a].regex.source_view() == rows@[a].package_pattern@,
            decreases rows.len() - i,
        {
            let e = rows[i];
            match Pattern::compile(e.package_pattern) {
                Ok(p) => {
                    entries.push(CompiledEntry { regex: p, entry: e });
                },
                Err(_) => {
                    assert(!regex_compiles(rows@[i as int].package_pattern@));
                    let mut msg = owned("catalogue pattern does not compile: ");
                    msg.append(rows[i].package_pattern);
                    return Err(ScanError::Pattern(msg));
                },
            }
            i = i + 1;
        }
        let s = DepScanner { entries };
        assert(s.rows() =~= rows@);
        Ok(s)
    }

    /// A scanner over the built-in catalogue.
    pub fn with_builtins() -> (r: Result<DepScanner, ScanError>)
        ensures
            r is Ok <==> forall|i: int| 0 <= i < catalogue_rows().len() ==> regex_compiles(#[trigger] catalogue_rows()[i].1),
            r matches Ok(s) ==> s.rows().map_values(|e: CatalogueEntry| entry_view(e)) == catalogue_rows(),
    {
        let rows = catalogue();
        assert forall|i: int| 0 <= i < rows@.len() implies #[trigger] rows@[i].package_pattern@ == catalogue_rows()[i].1 by {
            assert(rows@.map_values(|e: CatalogueEntry| entry_view(e))[i] == entry_view(rows@[i]));
        }
        let r = DepScanner::with_entries(rows);
        proof {
            if r is Ok {
                assert forall|i: int| 0 <= i < catalogue_rows().len() implies regex_compiles(#[trigger] catalogue_rows()[i].1) by {
                    assert(regex_compiles(rows@[i].package_pattern@));
                }
            } else {
                let k = choose|k: int| 0 <= k < rows@.len() && !regex_compiles(#[trigger] rows@[k].package_pattern@);
                assert(!regex_compiles(catalogue_rows()[k].1));
            }
        }
        r
    }

    /// The findings a manifest's declared dependencies raise: each
    /// dependency is checked against the rows of its ecosystem in order, and
    /// the first row whose pattern matches its name raises one finding.
    pub fn scan_manifest(&self, path: &str, ecosystem: Ecosystem, deps: &Vec<RawDep>) -> (r: Vec<Finding>)
        ensures
            r@.len() == manifest_hits(self.rows(), deps@, ecosystem).len(),
            forall|j: int| 0 <= j < r@.len() ==> {
                let h = #[trigger] manifest_hits(self.rows(), deps@, ecosystem)[j];
                dep_finding(r@[j], deps@[h.0], self.rows()[h.1], ecosystem, path@)
            },
    {
        proof {
            use_type_invariant(self);
        }
        let ghost rows = self.rows();
        let mut findings: Vec<Finding> = Vec::new();
        let mut d: usize = 0;
        while d < deps.len()
            invariant
                d <= deps@.len(),
                rows == self.rows(),
                rows.len() == self.entries@.len(),
                forall|i: int| 0 <= i < self.entries@.len() ==> (#[trigger] self.entries@[i]).regex.source_view()
                    == self.entries@[i].entry.package_pattern@ && rows[i] == self.entries@[i].entry,
                findings@.len() == manifest_hits(rows, deps@.subrange(0, d as int), ecosystem).len(),
                forall|j: int| 0 <= j < findings@.len() ==> {
                    let h = #[trigger] manifest_hits(rows, deps@.subrange(0, d as int), ecosystem)[j];
                    dep_finding(findings@[j], deps@[h.0], rows[h.1], ecosystem, path@)
                },
            decreases deps.len() - d,
        {
            let dep = &deps[d];
            let ghost pre = deps@.subrange(0, d as int);
            let ghost cur = deps@.subrange(0, d + 1);
            assert(cur.drop_last() =~= pre);
            assert(cur.last() == deps@[d as int]);
            let mut k: usize = 0;
            let mut hit: Option<usize> = None;
            while k < self.entries.len()
                invariant
                    k <= self.entries@.len(),
                    rows.len() == self.entries@.len(),
                    forall|i: int| 0 <= i < self.entries@.len() ==> (#[trigger] self.entries@[i]).regex.source_view()
                        == self.entries@[i].entry.package_pattern@ && rows[i] == self.entries@[i].entry,
                    hit is Some ==> k == self.entries@.len(),
                    hit is None ==> first_entry(rows, ecosystem, dep.name@, 0) == first_entry(rows, ecosystem, dep.name@, k as int),
                    hit matches Some(h) ==> first_entry(rows, ecosystem, dep.name@, 0) == Some(h as int) && h < rows.len(),
                decreases self.entries.len() - k,
            {
                let c = &self.entries[k];
                assert(rows[k as int] == c.entry);
                if c.entry.ecosystem == ecosystem && c.regex.is_match(dep.name.as_str()) {
                    hit = Some(k);
                    k = self.entries.len();
                } else {
                    k = k + 1;
                }
            }
            match hit {
                Some(h) => {
                    let e = &self.entries[h].entry;
                    let version = if dep.version.as_str().is_empty() {
                        owned("(unknown version)")
                    } else {
                        dep.version.clone()
                    };
                    let mut message = owned(ecosystem.label());
                    message.append(" package ");
                    message.append(dep.name.as_str());
                    message.append(" ");
                    message.append(version.as_str());
                    message.append(" matches catalogue entry: ");
                    message.append(e.note);
                    let f = Finding {
                        rule_id: owned("DEP-001"),
                        algorithm_id: owned(e.algorithm_id),
                        location: Location {
                            location: owned(path),
                            line: Some(dep.line),
                            offset: None,
                            symbol: Some(build_symbol(ecosystem, dep.name.as_str())),
                            snippet: Some(dep.snippet.clone()),
                        },
                        message,
                        confidence: Confidence::TypeName,
                        usage_context: UsageContext::Unknown,
                        exposure: Exposure::InternalService,
                        shelf_life_bucket: owned("short"),
                        hndl_critical: false,
                    };
                    assert(rows[h as int] == *e);
                    findings.push(f);
                    assert(manifest_hits(rows, cur, ecosystem) == manifest_hits(rows, pre, ecosystem).push((d as int, h as int)));
                },
                None => {
                    assert(manifest_hits(rows, cur, ecosystem) == manifest_hits(rows, pre, ecosystem));
                },
            }
            d = d + 1;
        }
        assert(deps@.subrange(0, deps@.len() as int) =~= deps@);
        findings
    }
}

} // verus!
