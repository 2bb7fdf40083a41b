use seawall::collectors::{collect_bare_bindings, collect_go_pq_aliases, collect_imports};
use seawall::extract::{ArgValue, RawMatch};
use seawall::findings::SiteContext;
use seawall::rules::Language;
use seawall::parse::parse_source;
use seawall::syntax::SyntaxTree;
use seawall::algorithms::AlgorithmTable;
use seawall::scanner::{check_source_size, Scanner, MAX_SOURCE_BYTES};
use seawall::classify::ScanError;
use seawall::walker::extract_file;

fn parse(language: Language, source: &str) -> SyntaxTree {
    parse_source(language, source.as_bytes()).expect("a parsed tree is well formed")
}

fn sites(language: Language, source: &str) -> Vec<RawMatch> {
    extract_file(&parse(language, source), language).matches
}

fn arg(m: &RawMatch, key: &str) -> Option<String> {
    m.args.get(key).map(|v| v.as_str())
}

fn with_api<'a>(ms: &'a [RawMatch], api: &str) -> Vec<&'a RawMatch> {
    ms.iter().filter(|m| m.api == api).collect()
}

#[test]
fn go_key_sizes_curves_and_hashes() {
    let src = "package main\n\nfunc main() {\n\tk, _ := rsa.GenerateKey(rand.Reader, 2048)\n\tc, _ := ecdsa.GenerateKey(elliptic.P256(), rand.Reader)\n\th := md5.New()\n}\n";
    let ms = sites(Language::Go, src);
    let rsa = with_api(&ms, "crypto/rsa.GenerateKey");
    assert_eq!(rsa.len(), 1);
    assert!(matches!(rsa[0].args.get("bits"), Some(ArgValue::Int(2048))));
    assert_eq!(rsa[0].line, 4);
    assert_eq!(rsa[0].symbol, "rsa.GenerateKey");
    assert_eq!(rsa[0].snippet, "rsa.GenerateKey(rand.Reader, 2048)");
    assert_eq!(rsa[0].site_context, SiteContext::Call);
    let ec = with_api(&ms, "crypto/ecdsa.GenerateKey");
    assert_eq!(arg(ec[0], "curve_fn").as_deref(), Some("P256"));
    let md5 = with_api(&ms, "crypto/md5_sha1.New");
    assert_eq!(arg(md5[0], "pkg").as_deref(), Some("md5"));
}

#[test]
fn go_variable_key_size_captures_nothing() {
    let ms = sites(Language::Go, "package main\nfunc f(n int) { rsa.GenerateKey(rand.Reader, n) }\n");
    let rsa = with_api(&ms, "crypto/rsa.GenerateKey");
    assert_eq!(rsa.len(), 1);
    assert!(rsa[0].args.get("bits").is_none());
}

#[test]
fn go_tls_config_fields() {
    let src = "package main\nvar c = &tls.Config{\n\tMinVersion: tls.VersionTLS10,\n\tCurvePreferences: []tls.CurveID{tls.X25519, tls.CurveP256},\n}\n";
    let ms = sites(Language::Go, src);
    let min = with_api(&ms, "crypto/tls.Config.MinVersion");
    assert_eq!(min.len(), 1);
    assert_eq!(arg(min[0], "version").as_deref(), Some("VersionTLS10"));
    assert_eq!(min[0].symbol, "tls.VersionTLS10");
    assert_eq!(min[0].site_context, SiteContext::StructLiteral);
    let curves = with_api(&ms, "crypto/tls.Config.CurvePreferences");
    let names: Vec<String> = curves.iter().map(|m| arg(m, "curve").unwrap()).collect();
    assert_eq!(names, vec!["X25519".to_string(), "CurveP256".to_string()]);
    assert_eq!(curves[1].symbol, "tls.CurveP256");
}

#[test]
fn go_curve_preferences_need_tls_curve_ids() {
    let src = "package main\nvar c = Config{CurvePreferences: []CurveID{tls.X25519}}\n";
    let ms = sites(Language::Go, src);
    assert!(with_api(&ms, "crypto/tls.Config.CurvePreferences").is_empty());
}

#[test]
fn go_ssh_key_exchanges_normalise_constants() {
    let src = "package main\nvar c = ssh.Config{KeyExchanges: []string{ssh.KeyExchangeMLKEM768X25519, \"curve25519-sha256\", ssh.Unknown}}\n";
    let ms = sites(Language::Go, src);
    let kex: Vec<String> = with_api(&ms, "golang.org/x/crypto/ssh.Config.KeyExchanges")
        .iter()
        .map(|m| arg(m, "kex").unwrap())
        .collect();
    assert_eq!(kex, vec!["mlkem768x25519-sha256".to_string(), "curve25519-sha256".to_string()]);
}

#[test]
fn go_jose_names_in_switches_and_registrations() {
    let src = "package main\nfunc f(alg string) {\n\tswitch alg {\n\tcase \"RS256\":\n\tcase \"not-an-alg\":\n\t}\n}\nvar m = NewSignatureAlgorithm(\"ES384\")\n";
    let ms = sites(Language::Go, src);
    let sw = with_api(&ms, "go.alg-switch.RS256");
    assert_eq!(sw.len(), 1);
    assert_eq!(arg(sw[0], "member").as_deref(), Some("RS256"));
    assert_eq!(sw[0].line, 4);
    // The literal inside the case is the switch's, not a registration.
    assert!(with_api(&ms, "go.alg-register.RS256").is_empty());
    let reg = with_api(&ms, "go.alg-register.ES384");
    assert_eq!(reg.len(), 1);
    assert_eq!(reg[0].site_context, SiteContext::Call);
}

#[test]
fn go_none_needs_a_sibling_jose_name() {
    let alone = sites(Language::Go, "package main\nconst mode = \"none\"\n");
    assert!(with_api(&alone, "go.alg-register.none").is_empty());
    let grouped = sites(Language::Go, "package main\nconst (\n\ta = \"HS256\"\n\tb = \"none\"\n)\n");
    assert_eq!(with_api(&grouped, "go.alg-register.none").len(), 1);
    assert_eq!(with_api(&grouped, "go.alg-register.HS256").len(), 1);
}

#[test]
fn go_oqs_constructions() {
    let ms = sites(Language::Go, "package main\nfunc f() { k := oqs.KeyEncapsulation{}; _ = k }\n");
    let k = with_api(&ms, "liboqs-go/oqs.KeyEncapsulation");
    assert_eq!(k.len(), 1);
    assert_eq!(k[0].symbol, "oqs.KeyEncapsulation{}");
}

#[test]
fn go_hybrid_signature_note() {
    let src = "package main\nimport (\n\tdil \"github.com/cloudflare/circl/sign/dilithium/mode2\"\n)\nfunc Sign(k []byte) {\n\ted25519.Sign(k, nil)\n\tdil.SignTo(k, nil, nil)\n}\n";
    let t = parse(Language::Go, src);
    let aliases = collect_go_pq_aliases(&t, 0);
    assert_eq!(aliases, vec![("dil".to_string(), "ML-DSA (circl dilithium)".to_string())]);
    let ms = extract_file(&t, Language::Go).matches;
    let op = with_api(&ms, "crypto/ed25519.Op");
    assert_eq!(
        arg(op[0], "pq_note").as_deref(),
        Some(" This function also calls ML-DSA (circl dilithium) at line 7 — the classical component alone is insufficient to forge a signature accepted by this code.")
    );
    let plain = sites(Language::Go, "package main\nfunc Sign(k []byte) { ed25519.Sign(k, nil) }\n");
    assert_eq!(arg(with_api(&plain, "crypto/ed25519.Op")[0], "pq_note").as_deref(), Some(""));
}

#[test]
fn python_arguments_and_bare_imports() {
    let src = "import hashlib\nfrom hashlib import md5 as m5\nh = hashlib.new(\"md5\")\nk = rsa.generate_private_key(public_exponent=65537, key_size=1024)\nx = m5(b'x')\ny = RSA.generate(size)\n";
    let t = parse(Language::Python, src);
    assert_eq!(collect_bare_bindings(&t, 0, Language::Python), vec![("m5".to_string(), "hashlib.md5".to_string())]);
    let ms = extract_file(&t, Language::Python).matches;
    assert_eq!(arg(with_api(&ms, "hashlib.new")[0], "name").as_deref(), Some("md5"));
    let rsa = with_api(&ms, "cryptography.hazmat.rsa.generate_private_key");
    assert!(matches!(rsa[0].args.get("key_size"), Some(ArgValue::Int(1024))));
    let bare = with_api(&ms, "hashlib.md5");
    assert_eq!(bare.len(), 1);
    assert_eq!(bare[0].symbol, "m5");
}

#[test]
fn python_call_asserted_to_fail() {
    let src = "def test_x():\n    with pytest.raises(ValueError):\n        jwt.encode({}, 'k', algorithm='HS256')\n";
    let ms = sites(Language::Python, src);
    let enc = with_api(&ms, "jwt.encode");
    assert_eq!(enc.len(), 1);
    assert_eq!(enc[0].site_context, SiteContext::TestAssertion);
    assert_eq!(arg(enc[0], "alg").as_deref(), Some("HS256"));
}

#[test]
fn javascript_destructured_require_and_jwt_options() {
    let src = "const { createHash } = require('crypto');\nconst h = createHash('md5');\nconst t = jwt.sign(payload, key, { algorithm: 'RS256' });\n";
    let ms = sites(Language::JavaScript, src);
    let hash = with_api(&ms, "node:crypto.createHash");
    assert_eq!(hash.len(), 1);
    assert_eq!(arg(hash[0], "algo").as_deref(), Some("md5"));
    let sign = with_api(&ms, "jsonwebtoken.jwt.sign");
    assert_eq!(arg(sign[0], "key_kind").as_deref(), Some("non-string"));
    assert_eq!(arg(sign[0], "algorithm").as_deref(), Some("RS256"));
}

#[test]
fn javascript_expect_to_throw() {
    let src = "it('x', () => { expect(() => jwt.sign(p, 'secret')).to.throw(); });\n";
    let ms = sites(Language::JavaScript, src);
    let sign = with_api(&ms, "jsonwebtoken.jwt.sign");
    assert_eq!(sign[0].site_context, SiteContext::TestAssertion);
    assert_eq!(arg(sign[0], "key_kind").as_deref(), Some("string"));
}

#[test]
fn java_get_instance_enums_and_named_groups() {
    let src = "class A { void f() {\n  Cipher c = Cipher.getInstance(\"AES/GCM/NoPadding\");\n  Object a = SignatureAlgorithm.RS256;\n  p.setNamedGroups(new String[]{\"x25519\", \"SecP256r1MLKEM768\"});\n  System.setProperty(\"jdk.tls.namedGroups\", \"secp256r1, X25519MLKEM768,\");\n} }\n";
    let ms = sites(Language::Java, src);
    assert_eq!(arg(with_api(&ms, "javax.crypto.Cipher.getInstance")[0], "spec").as_deref(), Some("AES/GCM/NoPadding"));
    let e = with_api(&ms, "io.jsonwebtoken.SignatureAlgorithm");
    assert_eq!(arg(e[0], "member").as_deref(), Some("RS256"));
    assert_eq!(e[0].site_context, SiteContext::StringConstant);
    let groups: Vec<String> = with_api(&ms, "javax.net.ssl.SSLParameters.setNamedGroups")
        .iter()
        .map(|m| arg(m, "group").unwrap())
        .collect();
    assert_eq!(
        groups,
        vec!["x25519".to_string(), "SecP256r1MLKEM768".to_string(), "secp256r1".to_string(), "X25519MLKEM768".to_string()]
    );
}

#[test]
fn java_bouncycastle_named_groups() {
    let src = "class A { void f() { TlsUtils.addIfSupported(g, crypto, new int[]{ NamedGroup.X25519MLKEM768, x25519 }); } }\n";
    let ms = sites(Language::Java, src);
    let groups: Vec<String> = with_api(&ms, "org.bouncycastle.tls.NamedGroup").iter().map(|m| m.symbol.clone()).collect();
    assert_eq!(groups, vec!["NamedGroup.X25519MLKEM768".to_string(), "NamedGroup.x25519".to_string()]);
}

#[test]
fn c_key_sizes_group_lists_and_includes() {
    let src = "#include <openssl/rsa.h>\n#include \"local.h\"\nvoid f() {\n  RSA_generate_key_ex(rsa, 1024, e, NULL);\n  SSL_CTX_set1_groups_list(ctx, \"*X25519MLKEM768:?P-256/-x448:DEFAULT\");\n  SSL_CONF_cmd(cctx, \"groups\", \"P-384\");\n}\n";
    let t = parse(Language::C, src);
    assert_eq!(collect_imports(&t, 0, Language::C), vec!["openssl/rsa.h".to_string(), "local.h".to_string()]);
    assert!(collect_imports(&t, 0, Language::Go).is_empty());
    let ex = extract_file(&t, Language::C);
    assert_eq!(ex.imports, vec!["openssl/rsa.h".to_string(), "local.h".to_string()]);
    let rsa = with_api(&ex.matches, "openssl.RSA_generate_key_ex");
    assert!(matches!(rsa[0].args.get("bits"), Some(ArgValue::Int(1024))));
    let groups: Vec<(String, String)> = with_api(&ex.matches, "openssl.SSL_CTX_set1_groups_list")
        .iter()
        .map(|m| (arg(m, "group").unwrap(), arg(m, "fn_name").unwrap()))
        .collect();
    assert_eq!(
        groups,
        vec![
            ("X25519MLKEM768".to_string(), "SSL_CTX_set1_groups_list".to_string()),
            ("P-256".to_string(), "SSL_CTX_set1_groups_list".to_string()),
            ("x448".to_string(), "SSL_CTX_set1_groups_list".to_string()),
            ("P-384".to_string(), "SSL_CONF_cmd".to_string()),
        ]
    );
}

#[test]
fn rust_key_sizes_groups_and_ciphersuites() {
    let src = "fn f() {\n    let k = RsaPrivateKey::new(&mut rng, 2048);\n    let p = CryptoProvider { kx_groups: Cow::Borrowed(&[kx_group::X25519MLKEM768, SECP256R1]) };\n    let cs = Ciphersuite::MLS_256_XWING_CHACHA20POLY1305_SHA256_Ed25519;\n    let q = Arc::new(rustls_post_quantum::DEFAULT_PROVIDER);\n}\n";
    let ms = sites(Language::Rust, src);
    assert!(matches!(with_api(&ms, "rsa.RsaPrivateKey.new")[0].args.get("bits"), Some(ArgValue::Int(2048))));
    let groups: Vec<String> = with_api(&ms, "rustls.CryptoProvider.kx_groups").iter().map(|m| arg(m, "group").unwrap()).collect();
    assert_eq!(groups, vec!["X25519MLKEM768".to_string(), "SECP256R1".to_string(), "X25519MLKEM768".to_string()]);
    let cs = with_api(&ms, "openmls.Ciphersuite");
    assert_eq!(arg(cs[0], "variant").as_deref(), Some("MLS_256_XWING_CHACHA20POLY1305_SHA256_Ed25519"));
}

#[test]
fn csharp_parameter_sets() {
    let src = "class A { void F() { var k = MLKem.GenerateKey(MLKemAlgorithm.MLKem768); } }\n";
    let ms = sites(Language::CSharp, src);
    let k = with_api(&ms, "System.Security.Cryptography.MLKem.GenerateKey");
    assert_eq!(k.len(), 1);
    assert_eq!(arg(k[0], "paramset").as_deref(), Some("MLKem768"));
}

#[test]
fn scanning_a_parsed_go_file() {
    let src = "package main\n\nfunc main() {\n\tk, _ := rsa.GenerateKey(rand.Reader, 1024)\n\th := md5.New()\n\tc, _ := ecdsa.GenerateKey(elliptic.P384(), rand.Reader)\n}\n";
    let t = parse(Language::Go, src);
    let scanner = Scanner::with_builtins(AlgorithmTable::from_builtin().unwrap()).unwrap();
    let mut out = Vec::new();
    scanner.scan_tree(Language::Go, &t, "main.go", &mut out).unwrap();
    let got: Vec<(&str, &str, Option<u32>)> = out
        .iter()
        .map(|f| (f.rule_id.as_str(), f.algorithm_id.as_str(), f.location.line))
        .collect();
    assert_eq!(
        got,
        vec![
            ("CRYPTO-001", "rsa-undersized", Some(4)),
            ("CRYPTO-050", "md5", Some(5)),
            ("CRYPTO-012", "ecdsa-p384", Some(6)),
        ]
    );
    assert_eq!(out[0].message, "RSA key of 1024 bits is below the 2048-bit floor");
    assert_eq!(out[0].location.location, "main.go");
}

#[test]
fn oversized_sources_are_refused() {
    assert!(check_source_size("a.go", MAX_SOURCE_BYTES).is_ok());
    match check_source_size("big.go", MAX_SOURCE_BYTES + 1) {
        Err(ScanError::FileTooLarge { path, size }) => {
            assert_eq!(path, "big.go");
            assert_eq!(size, MAX_SOURCE_BYTES + 1);
        },
        _ => panic!("expected FileTooLarge"),
    }
}
