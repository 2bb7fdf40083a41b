//! Argument captures of a matched call: for each api that carries its
//! parameter in an argument (a key size, a curve, an algorithm name), read
//! that argument off the syntax tree and bind it under the name the classify
//! rules read. An argument that is not a literal (a variable, a computed
//! value) captures nothing.
use vstd::prelude::*;
use crate::args::{
    algorithm_name_at, arg_kind_at, attr_name_at, call_attr_at, call_ident_at, call_method_at,
    const_name_at, first_call_method, first_identifier, int_at, js_arg_algorithm_name,
    js_object_arg_prop, kw_identifier, kw_int, kw_string, member_name_at, nth_arg_attr_name,
    nth_arg_call_attr, nth_arg_call_ident, nth_arg_call_method, nth_arg_int,
    nth_arg_selector_field, nth_arg_string, nth_csharp_arg_member_access_name,
    nth_real_arg_kind, object_prop_at, py_quotes, python_first_arg_call_method,
    python_first_arg_identifier, python_keyword_identifier, python_keyword_int,
    python_keyword_string, rust_arg_const_name, selector_field_at, string_at,
};
use crate::extract::{ArgMap, ArgVal, ArgValue, insert_entry};
use crate::rules::Language;
use crate::syntax::{
    SyntaxNode, SyntaxTree, kind_is, nth_real, nth_real_arg, parse_i64, parse_i64_spec, text_of,
};
use crate::text::{chars_of, owned, str_eq, string_from_chars, trim_set, trim_set_chars};

verus! {

// ---------------------------------------------------------------------------
// Captures as a sequence of bindings.

/// The entries after binding each capture in turn.
pub open spec fn insert_entries(
    entries: Seq<(Seq<char>, ArgVal)>,
    caps: Seq<(Seq<char>, ArgVal)>,
) -> Seq<(Seq<char>, ArgVal)>
    decreases caps.len(),
{
    if caps.len() == 0 {
        entries
    } else {
        let l = caps.last();
        insert_entry(insert_entries(entries, caps.drop_last()), l.0, l.1)
    }
}

/// Binding `a` and then `b` is binding `a + b`.
pub proof fn lemma_insert_entries_append(
    entries: Seq<(Seq<char>, ArgVal)>,
    a: Seq<(Seq<char>, ArgVal)>,
    b: Seq<(Seq<char>, ArgVal)>,
)
    ensures
        insert_entries(entries, a + b) == insert_entries(insert_entries(entries, a), b),
    decreases b.len(),
{
    if b.len() == 0 {
        assert(a + b =~= a);
    } else {
        lemma_insert_entries_append(entries, a, b.drop_last());
        assert((a + b).drop_last() =~= a + b.drop_last());
        assert((a + b).last() == b.last());
    }
}

/// Binding one capture is one insert.
proof fn lemma_insert_one(entries: Seq<(Seq<char>, ArgVal)>, key: Seq<char>, value: ArgVal)
    ensures
        insert_entries(entries, seq![(key, value)]) == insert_entry(entries, key, value),
{
    let c = seq![(key, value)];
    assert(c.drop_last() =~= Seq::<(Seq<char>, ArgVal)>::empty());
    assert(insert_entries(entries, c.drop_last()) == entries);
}

/// A string capture, when the argument was readable.
pub open spec fn str_cap(key: Seq<char>, v: Option<Seq<char>>) -> Seq<(Seq<char>, ArgVal)> {
    match v {
        Some(s) => seq![(key, ArgVal::Str(s))],
        None => Seq::empty(),
    }
}

/// An integer capture, when the argument was readable.
pub open spec fn int_cap(key: Seq<char>, v: Option<int>) -> Seq<(Seq<char>, ArgVal)> {
    match v {
        Some(n) => seq![(key, ArgVal::Int(n))],
        None => Seq::empty(),
    }
}

pub open spec fn opt_str(v: Option<String>) -> Option<Seq<char>> {
    match v {
        Some(s) => Some(s@),
        None => None,
    }
}

pub open spec fn opt_int(v: Option<i64>) -> Option<int> {
    match v {
        Some(n) => Some(n as int),
        None => None,
    }
}

// ---------------------------------------------------------------------------
// What each language's apis capture.

pub open spec fn go_captures(ns: Seq<SyntaxNode>, api: Seq<char>, args: int) -> Seq<(Seq<char>, ArgVal)> {
    if api == "crypto/rsa.GenerateKey"@ {
        int_cap("bits"@, int_at(ns, args, 1))
    } else if api == "crypto/ecdsa.GenerateKey"@ {
        str_cap("curve_fn"@, call_method_at(ns, args, 0))
    } else if api == "jwt.NewWithClaims"@ {
        str_cap("alg"@, selector_field_at(ns, args, 0))
    } else if api == "circl/sign/slhdsa.GenerateKey"@ {
        str_cap("id"@, selector_field_at(ns, args, 1))
    } else {
        Seq::empty()
    }
}

/// liboqs-python's constructors: a literal names the algorithm, a bare
/// variable is kept as a symbol.
pub open spec fn oqs_python_captures(ns: Seq<SyntaxNode>, args: int) -> Seq<(Seq<char>, ArgVal)> {
    match nth_real(ns, args, 0) {
        Some(a) => if kind_is(ns, a, "string"@) {
            seq![("alg"@, ArgVal::Str(trim_set(text_of(ns, a), py_quotes())))]
        } else if kind_is(ns, a, "identifier"@) {
            seq![("alg_symbol"@, ArgVal::Str(text_of(ns, a)))]
        } else {
            Seq::empty()
        },
        None => Seq::empty(),
    }
}

pub open spec fn python_captures(ns: Seq<SyntaxNode>, api: Seq<char>, args: int) -> Seq<(Seq<char>, ArgVal)> {
    if api == "hashlib.new"@ {
        str_cap("name"@, string_at(ns, args, 0))
    } else if api == "cryptography.hazmat.ciphers.Cipher"@ {
        str_cap("algo"@, call_attr_at(ns, args, 0)) + str_cap("mode"@, call_attr_at(ns, args, 1))
    } else if api == "ssl.SSLContext"@ {
        str_cap("proto"@, attr_name_at(ns, args, 0))
    } else if api == "jwt.encode"@ {
        str_cap("alg"@, kw_string(ns, args, "algorithm"@))
    } else if api == "Crypto.PublicKey.RSA.generate"@ {
        match int_at(ns, args, 0) {
            Some(b) => int_cap("bits"@, Some(b)),
            None => str_cap("bits_symbol"@, first_identifier(ns, args)),
        }
    } else if api == "cryptography.hazmat.rsa.generate_private_key"@ {
        match kw_int(ns, args, "key_size"@) {
            Some(n) => int_cap("key_size"@, Some(n)),
            None => str_cap("key_size_symbol"@, kw_identifier(ns, args, "key_size"@)),
        }
    } else if api == "cryptography.hazmat.ec.generate_private_key"@ {
        match first_call_method(ns, args) {
            Some(c) => str_cap("curve_name"@, Some(c)),
            None => str_cap("curve_symbol"@, first_identifier(ns, args)),
        }
    } else if api == "oqs.KeyEncapsulation"@ || api == "oqs.Signature"@ {
        oqs_python_captures(ns, args)
    } else {
        Seq::empty()
    }
}

pub open spec fn c_captures(ns: Seq<SyntaxNode>, api: Seq<char>, args: int) -> Seq<(Seq<char>, ArgVal)> {
    if api == "openssl.RSA_generate_key_ex"@ {
        int_cap("bits"@, int_at(ns, args, 1))
    } else if api == "openssl.RSA_generate_key"@ {
        int_cap("bits"@, int_at(ns, args, 0))
    } else if api == "openssl.EVP_EncryptInit_ex"@ {
        str_cap("cipher_fn"@, call_ident_at(ns, args, 1))
    } else if api == "openssl.EVP_DigestInit_ex"@ {
        str_cap("digest_fn"@, call_ident_at(ns, args, 1))
    } else if api == "openssl.SSL_CTX_set_cipher_list"@ {
        str_cap("cipher_str"@, string_at(ns, args, 1))
    } else if api == "liboqs.OQS_KEM_new"@ || api == "liboqs.OQS_SIG_new"@ {
        str_cap("alg"@, call_ident_at(ns, args, 0))
    } else if api == "openssl.EVP_PKEY_CTX_new_from_name"@ {
        str_cap("alg"@, string_at(ns, args, 1))
    } else if api == "openssl.EVP_PKEY_Q_keygen"@ {
        str_cap("alg"@, string_at(ns, args, 2))
    } else if api == "openssl.EVP_SIGNATURE_fetch"@ || api == "openssl.EVP_MD_fetch"@ {
        str_cap("alg"@, string_at(ns, args, 1))
    } else if api == "cng.BCryptGenerateKeyPair"@ || api == "cng.BCryptImportKeyPair"@ {
        str_cap("alg"@, call_ident_at(ns, args, 0))
    } else if api == "cng.BCryptOpenAlgorithmProvider"@ || api == "cng.NCryptIsAlgSupported"@ {
        str_cap("alg"@, call_ident_at(ns, args, 1))
    } else {
        Seq::empty()
    }
}

/// BouncyCastle key-generation parameters: the parameter set is argument 1.
pub open spec fn bc_keygen_param_api(api: Seq<char>) -> bool {
    api == "Org.BouncyCastle.Crypto.Parameters.MLKemKeyGenerationParameters.new"@
        || api == "Org.BouncyCastle.Crypto.Parameters.MLDsaKeyGenerationParameters.new"@
}

/// Apis whose parameter set is argument 0: BouncyCastle's encapsulators and
/// signer, and the .NET ML-KEM, ML-DSA and SLH-DSA factories.
pub open spec fn first_arg_param_api(api: Seq<char>) -> bool {
    ||| api == "Org.BouncyCastle.Crypto.Kems.MLKemEncapsulator.new"@
    ||| api == "Org.BouncyCastle.Crypto.Kems.MLKemDecapsulator.new"@
    ||| api == "Org.BouncyCastle.Crypto.Signers.MLDsaSigner.new"@
    ||| api == "System.Security.Cryptography.MLKem.GenerateKey"@
    ||| api == "System.Security.Cryptography.MLDsa.GenerateKey"@
    ||| api == "System.Security.Cryptography.SlhDsa.GenerateKey"@
    ||| api == "System.Security.Cryptography.MLKem.ImportEncapsulationKey"@
    ||| api == "System.Security.Cryptography.MLKem.ImportDecapsulationKey"@
    ||| api == "System.Security.Cryptography.MLKem.ImportPrivateSeed"@
    ||| api == "System.Security.Cryptography.MLDsa.ImportMLDsaPrivateKey"@
    ||| api == "System.Security.Cryptography.MLDsa.ImportMLDsaPrivateSeed"@
    ||| api == "System.Security.Cryptography.MLDsa.ImportMLDsaPublicKey"@
    ||| api == "System.Security.Cryptography.SlhDsa.ImportSlhDsaPrivateKey"@
    ||| api == "System.Security.Cryptography.SlhDsa.ImportSlhDsaPublicKey"@
}

pub open spec fn csharp_captures(ns: Seq<SyntaxNode>, api: Seq<char>, args: int) -> Seq<(Seq<char>, ArgVal)> {
    if bc_keygen_param_api(api) {
        str_cap("paramset"@, member_name_at(ns, args, 1))
    } else if first_arg_param_api(api) {
        str_cap("paramset"@, member_name_at(ns, args, 0))
    } else {
        Seq::empty()
    }
}

pub open spec fn rust_captures(ns: Seq<SyntaxNode>, api: Seq<char>, args: int) -> Seq<(Seq<char>, ArgVal)> {
    if api == "rsa.RsaPrivateKey.new"@ {
        int_cap("bits"@, int_at(ns, args, 1))
    } else if api == "openssl.Rsa.generate"@ {
        int_cap("bits"@, int_at(ns, args, 0))
    } else if api == "rcgen.KeyPair.generate_for"@ {
        str_cap("sig_alg"@, const_name_at(ns, args, 0))
    } else if api == "aws_lc_rs.kem.DecapsulationKey.generate"@
        || api == "aws_lc_rs.signature.PqdsaKeyPair.generate"@
        || api == "oqs.kem.Kem.new"@ || api == "oqs.sig.Sig.new"@ {
        str_cap("alg"@, const_name_at(ns, args, 0))
    } else {
        Seq::empty()
    }
}

/// Node crypto and jose: the first argument names the algorithm.
pub open spec fn js_first_string_api(api: Seq<char>) -> bool {
    ||| api == "node:crypto.createCipheriv"@
    ||| api == "node:crypto.createHash"@
    ||| api == "node:crypto.generateKeyPair"@
    ||| api == "node:crypto.createSign"@
    ||| api == "jose.generateKeyPair"@
}

/// The integer a property's text spells, when it spells one.
pub open spec fn parsed_prop(v: Option<Seq<char>>) -> Option<int> {
    match v {
        Some(s) => parse_i64_spec(s),
        None => None,
    }
}

/// A jsonwebtoken key argument: a string literal, something else, or
/// absent.
pub open spec fn key_kind_of(k: Option<Seq<char>>) -> Seq<char> {
    match k {
        Some(s) => if s == "string"@ {
            "string"@
        } else {
            "non-string"@
        },
        None => "unknown"@,
    }
}

pub open spec fn js_captures(ns: Seq<SyntaxNode>, api: Seq<char>, args: int) -> Seq<(Seq<char>, ArgVal)> {
    if js_first_string_api(api) {
        str_cap("algo"@, string_at(ns, args, 0))
    } else if api == "webcrypto.subtle.generateKey"@ || api == "webcrypto.subtle.sign"@ {
        str_cap("alg"@, algorithm_name_at(ns, args, 0))
            + str_cap("curve"@, object_prop_at(ns, args, 0, "namedCurve"@))
            + str_cap("hash"@, object_prop_at(ns, args, 0, "hash"@))
            + int_cap("length"@, parsed_prop(object_prop_at(ns, args, 0, "length"@)))
    } else if api == "jsonwebtoken.jwt.sign"@ {
        seq![("key_kind"@, ArgVal::Str(key_kind_of(arg_kind_at(ns, args, 1))))]
            + str_cap("algorithm"@, object_prop_at(ns, args, 2, "algorithm"@))
    } else {
        Seq::empty()
    }
}

/// The captures a call of `api` in `language` with argument list `args`
/// makes, in the order they are bound.
pub open spec fn populate_captures(
    ns: Seq<SyntaxNode>,
    language: Language,
    api: Seq<char>,
    args: int,
) -> Seq<(Seq<char>, ArgVal)> {
    match language {
        Language::Go => go_captures(ns, api, args),
        Language::Python => python_captures(ns, api, args),
        Language::C | Language::Cpp => c_captures(ns, api, args),
        Language::CSharp => csharp_captures(ns, api, args),
        Language::Rust => rust_captures(ns, api, args),
        Language::JavaScript | Language::TypeScript => js_captures(ns, api, args),
        Language::Java => Seq::empty(),
    }
}

/// Java `getInstance` calls: the first argument is the transformation or
/// algorithm string.
pub open spec fn java_captures(ns: Seq<SyntaxNode>, api: Seq<char>, args: int) -> Seq<(Seq<char>, ArgVal)> {
    if api == "javax.crypto.Cipher.getInstance"@ {
        str_cap("spec"@, string_at(ns, args, 0))
    } else if api == "java.security.KeyPairGenerator.getInstance"@
        || api == "java.security.MessageDigest.getInstance"@
        || api == "java.security.Signature.getInstance"@
        || api == "javax.crypto.KEM.getInstance"@
        || api == "javax.crypto.KeyGenerator.getInstance"@ {
        str_cap("algo"@, string_at(ns, args, 0))
    } else {
        Seq::empty()
    }
}

// ---------------------------------------------------------------------------
// Binding captures.

fn put_str(out: &mut ArgMap, key: &str, v: Option<String>)
    ensures
        final(out)@ == insert_entries(old(out)@, str_cap(key@, opt_str(v))),
{
    match v {
        Some(s) => {
            let ghost before = out@;
            let ghost sv = s@;
            out.insert(owned(key), ArgValue::Str(s));
            proof {
                lemma_insert_one(before, key@, ArgVal::Str(sv));
            }
        },
        None => {},
    }
}

fn put_int(out: &mut ArgMap, key: &str, v: Option<i64>)
    ensures
        final(out)@ == insert_entries(old(out)@, int_cap(key@, opt_int(v))),
{
    match v {
        Some(n) => {
            let ghost before = out@;
            out.insert(owned(key), ArgValue::Int(n));
            proof {
                lemma_insert_one(before, key@, ArgVal::Int(n as int));
            }
        },
        None => {},
    }
}

fn populate_go(t: &SyntaxTree, api: &str, args: usize, out: &mut ArgMap)
    requires
        args < t.view_nodes().len(),
    ensures
        final(out)@ == insert_entries(old(out)@, go_captures(t.view_nodes(), api@, args as int)),
{
    if str_eq(api, "crypto/rsa.GenerateKey") {
        put_int(out, "bits", nth_arg_int(t, args, 1));
    } else if str_eq(api, "crypto/ecdsa.GenerateKey") {
        put_str(out, "curve_fn", nth_arg_call_method(t, args, 0));
    } else if str_eq(api, "jwt.NewWithClaims") {
        put_str(out, "alg", nth_arg_selector_field(t, args, 0));
    } else if str_eq(api, "circl/sign/slhdsa.GenerateKey") {
        put_str(out, "id", nth_arg_selector_field(t, args, 1));
    }
}

fn populate_oqs_python(t: &SyntaxTree, args: usize, out: &mut ArgMap)
    requires
        args < t.view_nodes().len(),
    ensures
        final(out)@ == insert_entries(old(out)@, oqs_python_captures(t.view_nodes(), args as int)),
{
    let a = match nth_real_arg(t, args, 0) {
        Some(a) => a,
        None => {
            return;
        },
    };
    let node = t.node(a);
    if str_eq(node.kind.as_str(), "string") {
        let mut q: Vec<char> = Vec::new();
        q.push('"');
        q.push('\'');
        assert(q@ =~= py_quotes());
        let alg = string_from_chars(&trim_set_chars(&chars_of(node.text.as_str()), &q));
        put_str(out, "alg", Some(alg));
    } else if str_eq(node.kind.as_str(), "identifier") {
        put_str(out, "alg_symbol", Some(node.text.clone()));
    }
}

fn populate_python(t: &SyntaxTree, api: &str, args: usize, out: &mut ArgMap)
    requires
        args < t.view_nodes().len(),
    ensures
        final(out)@ == insert_entries(old(out)@, python_captures(t.view_nodes(), api@, args as int)),
{
    let ghost ns = t.view_nodes();
    let ghost a = args as int;
    if str_eq(api, "hashlib.new") {
        put_str(out, "name", nth_arg_string(t, args, 0));
    } else if str_eq(api, "cryptography.hazmat.ciphers.Cipher") {
        let ghost e0 = out@;
        put_str(out, "algo", nth_arg_call_attr(t, args, 0));
        put_str(out, "mode", nth_arg_call_attr(t, args, 1));
        proof {
            lemma_insert_entries_append(
                e0,
                str_cap("algo"@, call_attr_at(ns, a, 0)),
                str_cap("mode"@, call_attr_at(ns, a, 1)),
            );
        }
    } else if str_eq(api, "ssl.SSLContext") {
        put_str(out, "proto", nth_arg_attr_name(t, args, 0));
    } else if str_eq(api, "jwt.encode") {
        put_str(out, "alg", python_keyword_string(t, args, "algorithm"));
    } else if str_eq(api, "Crypto.PublicKey.RSA.generate") {
        match nth_arg_int(t, args, 0) {
            Some(b) => put_int(out, "bits", Some(b)),
            None => put_str(out, "bits_symbol", python_first_arg_identifier(t, args)),
        }
    } else if str_eq(api, "cryptography.hazmat.rsa.generate_private_key") {
        match python_keyword_int(t, args, "key_size") {
            Some(n) => put_int(out, "key_size", Some(n)),
            None => put_str(out, "key_size_symbol", python_keyword_identifier(t, args, "key_size")),
        }
    } else if str_eq(api, "cryptography.hazmat.ec.generate_private_key") {
        match python_first_arg_call_method(t, args) {
            Some(c) => put_str(out, "curve_name", Some(c)),
            None => put_str(out, "curve_symbol", python_first_arg_identifier(t, args)),
        }
    } else if str_eq(api, "oqs.KeyEncapsulation") || str_eq(api, "oqs.Signature") {
        populate_oqs_python(t, args, out);
    }
}

fn populate_c(t: &SyntaxTree, api: &str, args: usize, out: &mut ArgMap)
    requires
        args < t.view_nodes().len(),
    ensures
        final(out)@ == insert_entries(old(out)@, c_captures(t.view_nodes(), api@, args as int)),
{
    if str_eq(api, "openssl.RSA_generate_key_ex") {
        put_int(out, "bits", nth_arg_int(t, args, 1));
    } else if str_eq(api, "openssl.RSA_generate_key") {
        put_int(out, "bits", nth_arg_int(t, args, 0));
    } else if str_eq(api, "openssl.EVP_EncryptInit_ex") {
        put_str(out, "cipher_fn", nth_arg_call_ident(t, args, 1));
    } else if str_eq(api, "openssl.EVP_DigestInit_ex") {
        put_str(out, "digest_fn", nth_arg_call_ident(t, args, 1));
    } else if str_eq(api, "openssl.SSL_CTX_set_cipher_list") {
        put_str(out, "cipher_str", nth_arg_string(t, args, 1));
    } else if str_eq(api, "liboqs.OQS_KEM_new") || str_eq(api, "liboqs.OQS_SIG_new") {
        put_str(out, "alg", nth_arg_call_ident(t, args, 0));
    } else if str_eq(api, "openssl.EVP_PKEY_CTX_new_from_name") {
        put_str(out, "alg", nth_arg_string(t, args, 1));
    } else if str_eq(api, "openssl.EVP_PKEY_Q_keygen") {
        put_str(out, "alg", nth_arg_string(t, args, 2));
    } else if str_eq(api, "openssl.EVP_SIGNATURE_fetch") || str_eq(api, "openssl.EVP_MD_fetch") {
        put_str(out, "alg", nth_arg_string(t, args, 1));
    } else if str_eq(api, "cng.BCryptGenerateKeyPair") || str_eq(api, "cng.BCryptImportKeyPair") {
        put_str(out, "alg", nth_arg_call_ident(t, args, 0));
    } else if str_eq(api, "cng.BCryptOpenAlgorithmProvider") || str_eq(
        api,
        "cng.NCryptIsAlgSupported",
    ) {
        put_str(out, "alg", nth_arg_call_ident(t, args, 1));
    }
}

fn is_bc_keygen_param_api(api: &str) -> (r: bool)
    ensures
        r == bc_keygen_param_api(api@),
{
    str_eq(api, "Org.BouncyCastle.Crypto.Parameters.MLKemKeyGenerationParameters.new") || str_eq(
        api,
        "Org.BouncyCastle.Crypto.Parameters.MLDsaKeyGenerationParameters.new",
    )
}

fn is_first_arg_param_api(api: &str) -> (r: bool)
    ensures
        r == first_arg_param_api(api@),
{
    str_eq(api, "Org.BouncyCastle.Crypto.Kems.MLKemEncapsulator.new")
        || str_eq(api, "Org.BouncyCastle.Crypto.Kems.MLKemDecapsulator.new")
        || str_eq(api, "Org.BouncyCastle.Crypto.Signers.MLDsaSigner.new")
        || str_eq(api, "System.Security.Cryptography.MLKem.GenerateKey")
        || str_eq(api, "System.Security.Cryptography.MLDsa.GenerateKey")
        || str_eq(api, "System.Security.Cryptography.SlhDsa.GenerateKey")
        || str_eq(api, "System.Security.Cryptography.MLKem.ImportEncapsulationKey")
        || str_eq(api, "System.Security.Cryptography.MLKem.ImportDecapsulationKey")
        || str_eq(api, "System.Security.Cryptography.MLKem.ImportPrivateSeed")
        || str_eq(api, "System.Security.Cryptography.MLDsa.ImportMLDsaPrivateKey")
        || str_eq(api, "System.Security.Cryptography.MLDsa.ImportMLDsaPrivateSeed")
        || str_eq(api, "System.Security.Cryptography.MLDsa.ImportMLDsaPublicKey")
        || str_eq(api, "System.Security.Cryptography.SlhDsa.ImportSlhDsaPrivateKey")
        || str_eq(api, "System.Security.Cryptography.SlhDsa.ImportSlhDsaPublicKey")
}

fn populate_csharp(t: &SyntaxTree, api: &str, args: usize, out: &mut ArgMap)
    requires
        args < t.view_nodes().len(),
    ensures
        final(out)@ == insert_entries(old(out)@, csharp_captures(t.view_nodes(), api@, args as int)),
{
    if is_bc_keygen_param_api(api) {
        put_str(out, "paramset", nth_csharp_arg_member_access_name(t, args, 1));
    } else if is_first_arg_param_api(api) {
        put_str(out, "paramset", nth_csharp_arg_member_access_name(t, args, 0));
    }
}

fn populate_rust(t: &SyntaxTree, api: &str, args: usize, out: &mut ArgMap)
    requires
        args < t.view_nodes().len(),
    ensures
        final(out)@ == insert_entries(old(out)@, rust_captures(t.view_nodes(), api@, args as int)),
{
    if str_eq(api, "rsa.RsaPrivateKey.new") {
        put_int(out, "bits", nth_arg_int(t, args, 1));
    } else if str_eq(api, "openssl.Rsa.generate") {
        put_int(out, "bits", nth_arg_int(t, args, 0));
    } else if str_eq(api, "rcgen.KeyPair.generate_for") {
        put_str(out, "sig_alg", rust_arg_const_name(t, args, 0));
    } else if str_eq(api, "aws_lc_rs.kem.DecapsulationKey.generate") || str_eq(
        api,
        "aws_lc_rs.signature.PqdsaKeyPair.generate",
    ) || str_eq(api, "oqs.kem.Kem.new") || str_eq(api, "oqs.sig.Sig.new") {
        put_str(out, "alg", rust_arg_const_name(t, args, 0));
    }
}

fn is_js_first_string_api(api: &str) -> (r: bool)
    ensures
        r == js_first_string_api(api@),
{
    str_eq(api, "node:crypto.createCipheriv") || str_eq(api, "node:crypto.createHash") || str_eq(
        api,
        "node:crypto.generateKeyPair",
    ) || str_eq(api, "node:crypto.createSign") || str_eq(api, "jose.generateKeyPair")
}

fn populate_webcrypto(t: &SyntaxTree, args: usize, out: &mut ArgMap)
    requires
        args < t.view_nodes().len(),
    ensures
        final(out)@ == insert_entries(
            old(out)@,
            str_cap("alg"@, algorithm_name_at(t.view_nodes(), args as int, 0))
                + str_cap("curve"@, object_prop_at(t.view_nodes(), args as int, 0, "namedCurve"@))
                + str_cap("hash"@, object_prop_at(t.view_nodes(), args as int, 0, "hash"@))
                + int_cap("length"@, parsed_prop(object_prop_at(t.view_nodes(), args as int, 0, "length"@))),
        ),
{
    let ghost ns = t.view_nodes();
    let ghost a = args as int;
    let ghost c1 = str_cap("alg"@, algorithm_name_at(ns, a, 0));
    let ghost c2 = str_cap("curve"@, object_prop_at(ns, a, 0, "namedCurve"@));
    let ghost c3 = str_cap("hash"@, object_prop_at(ns, a, 0, "hash"@));
    let ghost c4 = int_cap("length"@, parsed_prop(object_prop_at(ns, a, 0, "length"@)));
    let ghost e0 = out@;
    put_str(out, "alg", js_arg_algorithm_name(t, args, 0));
    put_str(out, "curve", js_object_arg_prop(t, args, 0, "namedCurve"));
    put_str(out, "hash", js_object_arg_prop(t, args, 0, "hash"));
    let len = match js_object_arg_prop(t, args, 0, "length") {
        Some(l) => parse_i64(l.as_str()),
        None => None,
    };
    put_int(out, "length", len);
    proof {
        lemma_insert_entries_append(e0, c1, c2);
        lemma_insert_entries_append(e0, c1 + c2, c3);
        lemma_insert_entries_append(e0, c1 + c2 + c3, c4);
    }
}

fn populate_jwt_sign(t: &SyntaxTree, args: usize, out: &mut ArgMap)
    requires
        args < t.view_nodes().len(),
    ensures
        final(out)@ == insert_entries(
            old(out)@,
            seq![("key_kind"@, ArgVal::Str(key_kind_of(arg_kind_at(t.view_nodes(), args as int, 1))))]
                + str_cap("algorithm"@, object_prop_at(t.view_nodes(), args as int, 2, "algorithm"@)),
        ),
{
    let ghost ns = t.view_nodes();
    let ghost a = args as int;
    let ghost c1 = seq![("key_kind"@, ArgVal::Str(key_kind_of(arg_kind_at(ns, a, 1))))];
    let ghost c2 = str_cap("algorithm"@, object_prop_at(ns, a, 2, "algorithm"@));
    let ghost e0 = out@;
    let key_kind = match nth_real_arg_kind(t, args, 1) {
        Some(k) => if str_eq(k, "string") {
            "string"
        } else {
            "non-string"
        },
        None => "unknown",
    };
    put_str(out, "key_kind", Some(owned(key_kind)));
    put_str(out, "algorithm", js_object_arg_prop(t, args, 2, "algorithm"));
    proof {
        assert(str_cap("key_kind"@, Some(key_kind@)) == c1);
        lemma_insert_entries_append(e0, c1, c2);
    }
}

fn populate_js(t: &SyntaxTree, api: &str, args: usize, out: &mut ArgMap)
    requires
        args < t.view_nodes().len(),
    ensures
        final(out)@ == insert_entries(old(out)@, js_captures(t.view_nodes(), api@, args as int)),
{
    if is_js_first_string_api(api) {
        put_str(out, "algo", nth_arg_string(t, args, 0));
    } else if str_eq(api, "webcrypto.subtle.generateKey") || str_eq(api, "webcrypto.subtle.sign") {
        populate_webcrypto(t, args, out);
    } else if str_eq(api, "jsonwebtoken.jwt.sign") {
        populate_jwt_sign(t, args, out);
    }
}

/// Bind the argument captures of a call of `api` in `language` whose
/// argument list is node `args`.
pub fn populate_args(language: Language, api: &str, t: &SyntaxTree, args: usize, out: &mut ArgMap)
    requires
        args < t.view_nodes().len(),
    ensures
        final(out)@ == insert_entries(old(out)@, populate_captures(t.view_nodes(), language, api@, args as int)),
{
    match language {
        Language::Go => populate_go(t, api, args, out),
        Language::Python => populate_python(t, api, args, out),
        Language::C | Language::Cpp => populate_c(t, api, args, out),
        Language::CSharp => populate_csharp(t, api, args, out),
        Language::Rust => populate_rust(t, api, args, out),
        Language::JavaScript | Language::TypeScript => populate_js(t, api, args, out),
        Language::Java => {},
    }
}

/// Bind the argument captures of a Java `getInstance` call of `api` whose
/// argument list is node `args`.
pub fn populate_java_args(api: &str, t: &SyntaxTree, args: usize, out: &mut ArgMap)
    requires
        args < t.view_nodes().len(),
    ensures
        final(out)@ == insert_entries(old(out)@, java_captures(t.view_nodes(), api@, args as int)),
{
    if str_eq(api, "javax.crypto.Cipher.getInstance") {
        put_str(out, "spec", nth_arg_string(t, args, 0));
    } else if str_eq(api, "java.security.KeyPairGenerator.getInstance") || str_eq(
        api,
        "java.security.MessageDigest.getInstance",
    ) || str_eq(api, "java.security.Signature.getInstance") || str_eq(
        api,
        "javax.crypto.KEM.getInstance",
    ) || str_eq(api, "javax.crypto.KeyGenerator.getInstance") {
        put_str(out, "algo", nth_arg_string(t, args, 0));
    }
}

} // verus!
