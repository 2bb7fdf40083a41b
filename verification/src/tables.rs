//! The callee tables the matchers dispatch on, each as a specification
//! sequence and as the executable table that realises it.
use vstd::prelude::*;

verus! {

/// Views of a table of string pairs.
pub open spec fn pairs_view(t: Seq<(&str, &str)>) -> Seq<(Seq<char>, Seq<char>)> {
    t.map_values(|p: (&str, &str)| (p.0@, p.1@))
}

/// Views of a list of strings.
pub open spec fn strs_view(t: Seq<&str>) -> Seq<Seq<char>> {
    t.map_values(|p: &str| p@)
}

/// Go callee text and the logical api it names.
pub open spec fn go_callee_table() -> Seq<(Seq<char>, Seq<char>)> {
    seq![
        ("rsa.GenerateKey"@, "crypto/rsa.GenerateKey"@),
        ("ecdsa.GenerateKey"@, "crypto/ecdsa.GenerateKey"@),
        ("ed25519.GenerateKey"@, "crypto/ed25519.GenerateKey"@),
        ("md5.New"@, "crypto/md5_sha1.New"@),
        ("sha1.New"@, "crypto/md5_sha1.New"@),
        ("md5.Sum"@, "crypto/md5_sha1.Sum"@),
        ("sha1.Sum"@, "crypto/md5_sha1.Sum"@),
        ("sha256.New"@, "crypto/sha256.New"@),
        ("sha256.Sum256"@, "crypto/sha256.Sum256"@),
        ("sha256.New224"@, "crypto/sha256.New224"@),
        ("sha256.Sum224"@, "crypto/sha256.Sum224"@),
        ("sha512.New"@, "crypto/sha512.New"@),
        ("sha512.Sum512"@, "crypto/sha512.Sum512"@),
        ("sha512.New384"@, "crypto/sha512.New384"@),
        ("sha512.Sum384"@, "crypto/sha512.Sum384"@),
        ("aes.NewCipher"@, "crypto/aes.NewCipher"@),
        ("des.NewCipher"@, "crypto/des.NewCipher"@),
        ("des.NewTripleDESCipher"@, "crypto/des.NewTripleDESCipher"@),
        ("rc4.NewCipher"@, "crypto/rc4.NewCipher"@),
        ("jwt.NewWithClaims"@, "jwt.NewWithClaims"@),
        ("jwt_go.NewWithClaims"@, "jwt.NewWithClaims"@),
        ("jwtgo.NewWithClaims"@, "jwt.NewWithClaims"@),
        ("rsa.SignPKCS1v15"@, "crypto/rsa.Op"@),
        ("rsa.VerifyPKCS1v15"@, "crypto/rsa.Op"@),
        ("rsa.SignPSS"@, "crypto/rsa.Op"@),
        ("rsa.VerifyPSS"@, "crypto/rsa.Op"@),
        ("rsa.EncryptOAEP"@, "crypto/rsa.Op"@),
        ("rsa.DecryptOAEP"@, "crypto/rsa.Op"@),
        ("rsa.EncryptPKCS1v15"@, "crypto/rsa.Op"@),
        ("rsa.DecryptPKCS1v15"@, "crypto/rsa.Op"@),
        ("ecdsa.Sign"@, "crypto/ecdsa.Op"@),
        ("ecdsa.SignASN1"@, "crypto/ecdsa.Op"@),
        ("ecdsa.Verify"@, "crypto/ecdsa.Op"@),
        ("ecdsa.VerifyASN1"@, "crypto/ecdsa.Op"@),
        ("ed25519.Sign"@, "crypto/ed25519.Op"@),
        ("ed25519.Verify"@, "crypto/ed25519.Op"@),
        ("dsa.GenerateKey"@, "crypto/dsa.GenerateKey"@),
        ("dsa.Sign"@, "crypto/dsa.Op"@),
        ("dsa.Verify"@, "crypto/dsa.Op"@),
        ("mldsa44.GenerateKey"@, "circl/sign/mldsa.GenerateKey"@),
        ("mldsa65.GenerateKey"@, "circl/sign/mldsa.GenerateKey"@),
        ("mldsa87.GenerateKey"@, "circl/sign/mldsa.GenerateKey"@),
        ("mldsa44.NewKeyFromSeed"@, "circl/sign/mldsa.GenerateKey"@),
        ("mldsa65.NewKeyFromSeed"@, "circl/sign/mldsa.GenerateKey"@),
        ("mldsa87.NewKeyFromSeed"@, "circl/sign/mldsa.GenerateKey"@),
        ("mldsa44.SignTo"@, "circl/sign/mldsa.Op"@),
        ("mldsa65.SignTo"@, "circl/sign/mldsa.Op"@),
        ("mldsa87.SignTo"@, "circl/sign/mldsa.Op"@),
        ("mldsa44.Verify"@, "circl/sign/mldsa.Op"@),
        ("mldsa65.Verify"@, "circl/sign/mldsa.Op"@),
        ("mldsa87.Verify"@, "circl/sign/mldsa.Op"@),
        ("mlkem512.GenerateKeyPair"@, "circl/kem/mlkem.GenerateKeyPair"@),
        ("mlkem768.GenerateKeyPair"@, "circl/kem/mlkem.GenerateKeyPair"@),
        ("mlkem1024.GenerateKeyPair"@, "circl/kem/mlkem.GenerateKeyPair"@),
        ("mlkem512.NewKeyFromSeed"@, "circl/kem/mlkem.GenerateKeyPair"@),
        ("mlkem768.NewKeyFromSeed"@, "circl/kem/mlkem.GenerateKeyPair"@),
        ("mlkem1024.NewKeyFromSeed"@, "circl/kem/mlkem.GenerateKeyPair"@),
        ("slhdsa.GenerateKey"@, "circl/sign/slhdsa.GenerateKey"@),
        ("mlkem.GenerateKey768"@, "crypto/mlkem.KeyOp"@),
        ("mlkem.GenerateKey1024"@, "crypto/mlkem.KeyOp"@),
        ("mlkem.NewDecapsulationKey768"@, "crypto/mlkem.KeyOp"@),
        ("mlkem.NewDecapsulationKey1024"@, "crypto/mlkem.KeyOp"@),
        ("mlkem.NewEncapsulationKey768"@, "crypto/mlkem.KeyOp"@),
        ("mlkem.NewEncapsulationKey1024"@, "crypto/mlkem.KeyOp"@),
        ("mldsa.MLDSA44"@, "crypto/mldsa.ParamSet"@),
        ("mldsa.MLDSA65"@, "crypto/mldsa.ParamSet"@),
        ("mldsa.MLDSA87"@, "crypto/mldsa.ParamSet"@),
        ("xwing.GenerateKeyPair"@, "circl/kem/xwing.Op"@),
        ("xwing.GenerateKeyPairPacked"@, "circl/kem/xwing.Op"@),
        ("xwing.DeriveKeyPair"@, "circl/kem/xwing.Op"@),
        ("xwing.DeriveKeyPairPacked"@, "circl/kem/xwing.Op"@),
        ("xwing.Encapsulate"@, "circl/kem/xwing.Op"@),
        ("xwing.Decapsulate"@, "circl/kem/xwing.Op"@),
        ("xwing.EncapsulateTo"@, "circl/kem/xwing.Op"@),
        ("xwing.DecapsulateTo"@, "circl/kem/xwing.Op"@),
        ("xwing.PublicFromSecret"@, "circl/kem/xwing.Op"@),
    ]
}

/// Go callee text and the logical api it names.
pub fn go_callee_apis() -> (t: Vec<(&'static str, &'static str)>)
    ensures
        pairs_view(t@) == go_callee_table(),
{
    let t = vec![
        ("rsa.GenerateKey", "crypto/rsa.GenerateKey"),
        ("ecdsa.GenerateKey", "crypto/ecdsa.GenerateKey"),
        ("ed25519.GenerateKey", "crypto/ed25519.GenerateKey"),
        ("md5.New", "crypto/md5_sha1.New"),
        ("sha1.New", "crypto/md5_sha1.New"),
        ("md5.Sum", "crypto/md5_sha1.Sum"),
        ("sha1.Sum", "crypto/md5_sha1.Sum"),
        ("sha256.New", "crypto/sha256.New"),
        ("sha256.Sum256", "crypto/sha256.Sum256"),
        ("sha256.New224", "crypto/sha256.New224"),
        ("sha256.Sum224", "crypto/sha256.Sum224"),
        ("sha512.New", "crypto/sha512.New"),
        ("sha512.Sum512", "crypto/sha512.Sum512"),
        ("sha512.New384", "crypto/sha512.New384"),
        ("sha512.Sum384", "crypto/sha512.Sum384"),
        ("aes.NewCipher", "crypto/aes.NewCipher"),
        ("des.NewCipher", "crypto/des.NewCipher"),
        ("des.NewTripleDESCipher", "crypto/des.NewTripleDESCipher"),
        ("rc4.NewCipher", "crypto/rc4.NewCipher"),
        ("jwt.NewWithClaims", "jwt.NewWithClaims"),
        ("jwt_go.NewWithClaims", "jwt.NewWithClaims"),
        ("jwtgo.NewWithClaims", "jwt.NewWithClaims"),
        ("rsa.SignPKCS1v15", "crypto/rsa.Op"),
        ("rsa.VerifyPKCS1v15", "crypto/rsa.Op"),
        ("rsa.SignPSS", "crypto/rsa.Op"),
        ("rsa.VerifyPSS", "crypto/rsa.Op"),
        ("rsa.EncryptOAEP", "crypto/rsa.Op"),
        ("rsa.DecryptOAEP", "crypto/rsa.Op"),
        ("rsa.EncryptPKCS1v15", "crypto/rsa.Op"),
        ("rsa.DecryptPKCS1v15", "crypto/rsa.Op"),
        ("ecdsa.Sign", "crypto/ecdsa.Op"),
        ("ecdsa.SignASN1", "crypto/ecdsa.Op"),
        ("ecdsa.Verify", "crypto/ecdsa.Op"),
        ("ecdsa.VerifyASN1", "crypto/ecdsa.Op"),
        ("ed25519.Sign", "crypto/ed25519.Op"),
        ("ed25519.Verify", "crypto/ed25519.Op"),
        ("dsa.GenerateKey", "crypto/dsa.GenerateKey"),
        ("dsa.Sign", "crypto/dsa.Op"),
        ("dsa.Verify", "crypto/dsa.Op"),
        ("mldsa44.GenerateKey", "circl/sign/mldsa.GenerateKey"),
        ("mldsa65.GenerateKey", "circl/sign/mldsa.GenerateKey"),
        ("mldsa87.GenerateKey", "circl/sign/mldsa.GenerateKey"),
        ("mldsa44.NewKeyFromSeed", "circl/sign/mldsa.GenerateKey"),
        ("mldsa65.NewKeyFromSeed", "circl/sign/mldsa.GenerateKey"),
        ("mldsa87.NewKeyFromSeed", "circl/sign/mldsa.GenerateKey"),
        ("mldsa44.SignTo", "circl/sign/mldsa.Op"),
        ("mldsa65.SignTo", "circl/sign/mldsa.Op"),
        ("mldsa87.SignTo", "circl/sign/mldsa.Op"),
        ("mldsa44.Verify", "circl/sign/mldsa.Op"),
        ("mldsa65.Verify", "circl/sign/mldsa.Op"),
        ("mldsa87.Verify", "circl/sign/mldsa.Op"),
        ("mlkem512.GenerateKeyPair", "circl/kem/mlkem.GenerateKeyPair"),
        ("mlkem768.GenerateKeyPair", "circl/kem/mlkem.GenerateKeyPair"),
        ("mlkem1024.GenerateKeyPair", "circl/kem/mlkem.GenerateKeyPair"),
        ("mlkem512.NewKeyFromSeed", "circl/kem/mlkem.GenerateKeyPair"),
        ("mlkem768.NewKeyFromSeed", "circl/kem/mlkem.GenerateKeyPair"),
        ("mlkem1024.NewKeyFromSeed", "circl/kem/mlkem.GenerateKeyPair"),
        ("slhdsa.GenerateKey", "circl/sign/slhdsa.GenerateKey"),
        ("mlkem.GenerateKey768", "crypto/mlkem.KeyOp"),
        ("mlkem.GenerateKey1024", "crypto/mlkem.KeyOp"),
        ("mlkem.NewDecapsulationKey768", "crypto/mlkem.KeyOp"),
        ("mlkem.NewDecapsulationKey1024", "crypto/mlkem.KeyOp"),
        ("mlkem.NewEncapsulationKey768", "crypto/mlkem.KeyOp"),
        ("mlkem.NewEncapsulationKey1024", "crypto/mlkem.KeyOp"),
        ("mldsa.MLDSA44", "crypto/mldsa.ParamSet"),
        ("mldsa.MLDSA65", "crypto/mldsa.ParamSet"),
        ("mldsa.MLDSA87", "crypto/mldsa.ParamSet"),
        ("xwing.GenerateKeyPair", "circl/kem/xwing.Op"),
        ("xwing.GenerateKeyPairPacked", "circl/kem/xwing.Op"),
        ("xwing.DeriveKeyPair", "circl/kem/xwing.Op"),
        ("xwing.DeriveKeyPairPacked", "circl/kem/xwing.Op"),
        ("xwing.Encapsulate", "circl/kem/xwing.Op"),
        ("xwing.Decapsulate", "circl/kem/xwing.Op"),
        ("xwing.EncapsulateTo", "circl/kem/xwing.Op"),
        ("xwing.DecapsulateTo", "circl/kem/xwing.Op"),
        ("xwing.PublicFromSecret", "circl/kem/xwing.Op"),
    ];
    assert(pairs_view(t@) =~= go_callee_table());
    t
}

/// Python callee text (module-qualified or bare-imported) and its api.
pub open spec fn python_callee_table() -> Seq<(Seq<char>, Seq<char>)> {
    seq![
        ("rsa.generate_private_key"@, "cryptography.hazmat.rsa.generate_private_key"@),
        ("ec.generate_private_key"@, "cryptography.hazmat.ec.generate_private_key"@),
        ("hashlib.md5"@, "hashlib.md5"@),
        ("hashlib.sha1"@, "hashlib.sha1"@),
        ("hashlib.new"@, "hashlib.new"@),
        ("hashlib.sha224"@, "hashlib.sha224"@),
        ("hashlib.sha256"@, "hashlib.sha256"@),
        ("hashlib.sha384"@, "hashlib.sha384"@),
        ("hashlib.sha512"@, "hashlib.sha512"@),
        ("hashlib.sha3_256"@, "hashlib.sha3_256"@),
        ("hashlib.sha3_384"@, "hashlib.sha3_384"@),
        ("hashlib.sha3_512"@, "hashlib.sha3_512"@),
        ("ed25519.Ed25519PrivateKey.generate"@, "cryptography.hazmat.ed25519.generate"@),
        ("Ed25519PrivateKey.generate"@, "cryptography.hazmat.ed25519.generate"@),
        ("ed448.Ed448PrivateKey.generate"@, "cryptography.hazmat.ed448.generate"@),
        ("Ed448PrivateKey.generate"@, "cryptography.hazmat.ed448.generate"@),
        ("x25519.X25519PrivateKey.generate"@, "cryptography.hazmat.x25519.generate"@),
        ("X25519PrivateKey.generate"@, "cryptography.hazmat.x25519.generate"@),
        ("x448.X448PrivateKey.generate"@, "cryptography.hazmat.x448.generate"@),
        ("X448PrivateKey.generate"@, "cryptography.hazmat.x448.generate"@),
        ("ciphers.Cipher"@, "cryptography.hazmat.ciphers.Cipher"@),
        ("Cipher"@, "cryptography.hazmat.ciphers.Cipher"@),
        ("ssl.SSLContext"@, "ssl.SSLContext"@),
        ("jwt.encode"@, "jwt.encode"@),
        ("RSA.generate"@, "Crypto.PublicKey.RSA.generate"@),
        ("DES.new"@, "Crypto.Cipher.DES.new"@),
        ("DES3.new"@, "Crypto.Cipher.DES3.new"@),
        ("oqs.KeyEncapsulation"@, "oqs.KeyEncapsulation"@),
        ("oqs.Signature"@, "oqs.Signature"@),
        ("mlkem.MLKEM512PrivateKey.generate"@, "cryptography.hazmat.mlkem.ml_kem_512"@),
        ("MLKEM512PrivateKey.generate"@, "cryptography.hazmat.mlkem.ml_kem_512"@),
        ("mlkem.MLKEM512PrivateKey.from_seed_bytes"@, "cryptography.hazmat.mlkem.ml_kem_512"@),
        ("MLKEM512PrivateKey.from_seed_bytes"@, "cryptography.hazmat.mlkem.ml_kem_512"@),
        ("mlkem.MLKEM512PublicKey.from_public_bytes"@, "cryptography.hazmat.mlkem.ml_kem_512"@),
        ("MLKEM512PublicKey.from_public_bytes"@, "cryptography.hazmat.mlkem.ml_kem_512"@),
        ("mlkem.MLKEM768PrivateKey.generate"@, "cryptography.hazmat.mlkem.ml_kem_768"@),
        ("MLKEM768PrivateKey.generate"@, "cryptography.hazmat.mlkem.ml_kem_768"@),
        ("mlkem.MLKEM768PrivateKey.from_seed_bytes"@, "cryptography.hazmat.mlkem.ml_kem_768"@),
        ("MLKEM768PrivateKey.from_seed_bytes"@, "cryptography.hazmat.mlkem.ml_kem_768"@),
        ("mlkem.MLKEM768PublicKey.from_public_bytes"@, "cryptography.hazmat.mlkem.ml_kem_768"@),
        ("MLKEM768PublicKey.from_public_bytes"@, "cryptography.hazmat.mlkem.ml_kem_768"@),
        ("mlkem.MLKEM1024PrivateKey.generate"@, "cryptography.hazmat.mlkem.ml_kem_1024"@),
        ("MLKEM1024PrivateKey.generate"@, "cryptography.hazmat.mlkem.ml_kem_1024"@),
        ("mlkem.MLKEM1024PrivateKey.from_seed_bytes"@, "cryptography.hazmat.mlkem.ml_kem_1024"@),
        ("MLKEM1024PrivateKey.from_seed_bytes"@, "cryptography.hazmat.mlkem.ml_kem_1024"@),
        ("mlkem.MLKEM1024PublicKey.from_public_bytes"@, "cryptography.hazmat.mlkem.ml_kem_1024"@),
        ("MLKEM1024PublicKey.from_public_bytes"@, "cryptography.hazmat.mlkem.ml_kem_1024"@),
        ("mldsa.MLDSA44PrivateKey.generate"@, "cryptography.hazmat.mldsa.ml_dsa_44"@),
        ("MLDSA44PrivateKey.generate"@, "cryptography.hazmat.mldsa.ml_dsa_44"@),
        ("mldsa.MLDSA44PrivateKey.from_seed_bytes"@, "cryptography.hazmat.mldsa.ml_dsa_44"@),
        ("MLDSA44PrivateKey.from_seed_bytes"@, "cryptography.hazmat.mldsa.ml_dsa_44"@),
        ("mldsa.MLDSA44PublicKey.from_public_bytes"@, "cryptography.hazmat.mldsa.ml_dsa_44"@),
        ("MLDSA44PublicKey.from_public_bytes"@, "cryptography.hazmat.mldsa.ml_dsa_44"@),
        ("mldsa.MLDSA65PrivateKey.generate"@, "cryptography.hazmat.mldsa.ml_dsa_65"@),
        ("MLDSA65PrivateKey.generate"@, "cryptography.hazmat.mldsa.ml_dsa_65"@),
        ("mldsa.MLDSA65PrivateKey.from_seed_bytes"@, "cryptography.hazmat.mldsa.ml_dsa_65"@),
        ("MLDSA65PrivateKey.from_seed_bytes"@, "cryptography.hazmat.mldsa.ml_dsa_65"@),
        ("mldsa.MLDSA65PublicKey.from_public_bytes"@, "cryptography.hazmat.mldsa.ml_dsa_65"@),
        ("MLDSA65PublicKey.from_public_bytes"@, "cryptography.hazmat.mldsa.ml_dsa_65"@),
        ("mldsa.MLDSA87PrivateKey.generate"@, "cryptography.hazmat.mldsa.ml_dsa_87"@),
        ("MLDSA87PrivateKey.generate"@, "cryptography.hazmat.mldsa.ml_dsa_87"@),
        ("mldsa.MLDSA87PrivateKey.from_seed_bytes"@, "cryptography.hazmat.mldsa.ml_dsa_87"@),
        ("MLDSA87PrivateKey.from_seed_bytes"@, "cryptography.hazmat.mldsa.ml_dsa_87"@),
        ("mldsa.MLDSA87PublicKey.from_public_bytes"@, "cryptography.hazmat.mldsa.ml_dsa_87"@),
        ("MLDSA87PublicKey.from_public_bytes"@, "cryptography.hazmat.mldsa.ml_dsa_87"@),
        ("mldsa.MLDSAMuHasher"@, "cryptography.hazmat.mldsa.mu_hasher"@),
        ("MLDSAMuHasher"@, "cryptography.hazmat.mldsa.mu_hasher"@),
    ]
}

/// Python callee text (module-qualified or bare-imported) and its api.
pub fn python_callee_apis() -> (t: Vec<(&'static str, &'static str)>)
    ensures
        pairs_view(t@) == python_callee_table(),
{
    let t = vec![
        ("rsa.generate_private_key", "cryptography.hazmat.rsa.generate_private_key"),
        ("ec.generate_private_key", "cryptography.hazmat.ec.generate_private_key"),
        ("hashlib.md5", "hashlib.md5"),
        ("hashlib.sha1", "hashlib.sha1"),
        ("hashlib.new", "hashlib.new"),
        ("hashlib.sha224", "hashlib.sha224"),
        ("hashlib.sha256", "hashlib.sha256"),
        ("hashlib.sha384", "hashlib.sha384"),
        ("hashlib.sha512", "hashlib.sha512"),
        ("hashlib.sha3_256", "hashlib.sha3_256"),
        ("hashlib.sha3_384", "hashlib.sha3_384"),
        ("hashlib.sha3_512", "hashlib.sha3_512"),
        ("ed25519.Ed25519PrivateKey.generate", "cryptography.hazmat.ed25519.generate"),
        ("Ed25519PrivateKey.generate", "cryptography.hazmat.ed25519.generate"),
        ("ed448.Ed448PrivateKey.generate", "cryptography.hazmat.ed448.generate"),
        ("Ed448PrivateKey.generate", "cryptography.hazmat.ed448.generate"),
        ("x25519.X25519PrivateKey.generate", "cryptography.hazmat.x25519.generate"),
        ("X25519PrivateKey.generate", "cryptography.hazmat.x25519.generate"),
        ("x448.X448PrivateKey.generate", "cryptography.hazmat.x448.generate"),
        ("X448PrivateKey.generate", "cryptography.hazmat.x448.generate"),
        ("ciphers.Cipher", "cryptography.hazmat.ciphers.Cipher"),
        ("Cipher", "cryptography.hazmat.ciphers.Cipher"),
        ("ssl.SSLContext", "ssl.SSLContext"),
        ("jwt.encode", "jwt.encode"),
        ("RSA.generate", "Crypto.PublicKey.RSA.generate"),
        ("DES.new", "Crypto.Cipher.DES.new"),
        ("DES3.new", "Crypto.Cipher.DES3.new"),
        ("oqs.KeyEncapsulation", "oqs.KeyEncapsulation"),
        ("oqs.Signature", "oqs.Signature"),
        ("mlkem.MLKEM512PrivateKey.generate", "cryptography.hazmat.mlkem.ml_kem_512"),
        ("MLKEM512PrivateKey.generate", "cryptography.hazmat.mlkem.ml_kem_512"),
        ("mlkem.MLKEM512PrivateKey.from_seed_bytes", "cryptography.hazmat.mlkem.ml_kem_512"),
        ("MLKEM512PrivateKey.from_seed_bytes", "cryptography.hazmat.mlkem.ml_kem_512"),
        ("mlkem.MLKEM512PublicKey.from_public_bytes", "cryptography.hazmat.mlkem.ml_kem_512"),
        ("MLKEM512PublicKey.from_public_bytes", "cryptography.hazmat.mlkem.ml_kem_512"),
        ("mlkem.MLKEM768PrivateKey.generate", "cryptography.hazmat.mlkem.ml_kem_768"),
        ("MLKEM768PrivateKey.generate", "cryptography.hazmat.mlkem.ml_kem_768"),
        ("mlkem.MLKEM768PrivateKey.from_seed_bytes", "cryptography.hazmat.mlkem.ml_kem_768"),
        ("MLKEM768PrivateKey.from_seed_bytes", "cryptography.hazmat.mlkem.ml_kem_768"),
        ("mlkem.MLKEM768PublicKey.from_public_bytes", "cryptography.hazmat.mlkem.ml_kem_768"),
        ("MLKEM768PublicKey.from_public_bytes", "cryptography.hazmat.mlkem.ml_kem_768"),
        ("mlkem.MLKEM1024PrivateKey.generate", "cryptography.hazmat.mlkem.ml_kem_1024"),
        ("MLKEM1024PrivateKey.generate", "cryptography.hazmat.mlkem.ml_kem_1024"),
        ("mlkem.MLKEM1024PrivateKey.from_seed_bytes", "cryptography.hazmat.mlkem.ml_kem_1024"),
        ("MLKEM1024PrivateKey.from_seed_bytes", "cryptography.hazmat.mlkem.ml_kem_1024"),
        ("mlkem.MLKEM1024PublicKey.from_public_bytes", "cryptography.hazmat.mlkem.ml_kem_1024"),
        ("MLKEM1024PublicKey.from_public_bytes", "cryptography.hazmat.mlkem.ml_kem_1024"),
        ("mldsa.MLDSA44PrivateKey.generate", "cryptography.hazmat.mldsa.ml_dsa_44"),
        ("MLDSA44PrivateKey.generate", "cryptography.hazmat.mldsa.ml_dsa_44"),
        ("mldsa.MLDSA44PrivateKey.from_seed_bytes", "cryptography.hazmat.mldsa.ml_dsa_44"),
        ("MLDSA44PrivateKey.from_seed_bytes", "cryptography.hazmat.mldsa.ml_dsa_44"),
        ("mldsa.MLDSA44PublicKey.from_public_bytes", "cryptography.hazmat.mldsa.ml_dsa_44"),
        ("MLDSA44PublicKey.from_public_bytes", "cryptography.hazmat.mldsa.ml_dsa_44"),
        ("mldsa.MLDSA65PrivateKey.generate", "cryptography.hazmat.mldsa.ml_dsa_65"),
        ("MLDSA65PrivateKey.generate", "cryptography.hazmat.mldsa.ml_dsa_65"),
        ("mldsa.MLDSA65PrivateKey.from_seed_bytes", "cryptography.hazmat.mldsa.ml_dsa_65"),
        ("MLDSA65PrivateKey.from_seed_bytes", "cryptography.hazmat.mldsa.ml_dsa_65"),
        ("mldsa.MLDSA65PublicKey.from_public_bytes", "cryptography.hazmat.mldsa.ml_dsa_65"),
        ("MLDSA65PublicKey.from_public_bytes", "cryptography.hazmat.mldsa.ml_dsa_65"),
        ("mldsa.MLDSA87PrivateKey.generate", "cryptography.hazmat.mldsa.ml_dsa_87"),
        ("MLDSA87PrivateKey.generate", "cryptography.hazmat.mldsa.ml_dsa_87"),
        ("mldsa.MLDSA87PrivateKey.from_seed_bytes", "cryptography.hazmat.mldsa.ml_dsa_87"),
        ("MLDSA87PrivateKey.from_seed_bytes", "cryptography.hazmat.mldsa.ml_dsa_87"),
        ("mldsa.MLDSA87PublicKey.from_public_bytes", "cryptography.hazmat.mldsa.ml_dsa_87"),
        ("MLDSA87PublicKey.from_public_bytes", "cryptography.hazmat.mldsa.ml_dsa_87"),
        ("mldsa.MLDSAMuHasher", "cryptography.hazmat.mldsa.mu_hasher"),
        ("MLDSAMuHasher", "cryptography.hazmat.mldsa.mu_hasher"),
    ];
    assert(pairs_view(t@) =~= python_callee_table());
    t
}

/// Java `Class.method` invocation text and its api.
pub open spec fn java_callee_table() -> Seq<(Seq<char>, Seq<char>)> {
    seq![
        ("Cipher.getInstance"@, "javax.crypto.Cipher.getInstance"@),
        ("KeyPairGenerator.getInstance"@, "java.security.KeyPairGenerator.getInstance"@),
        ("MessageDigest.getInstance"@, "java.security.MessageDigest.getInstance"@),
        ("Signature.getInstance"@, "java.security.Signature.getInstance"@),
        ("KEM.getInstance"@, "javax.crypto.KEM.getInstance"@),
        ("KeyGenerator.getInstance"@, "javax.crypto.KeyGenerator.getInstance"@),
    ]
}

/// Java `Class.method` invocation text and its api.
pub fn java_callee_apis() -> (t: Vec<(&'static str, &'static str)>)
    ensures
        pairs_view(t@) == java_callee_table(),
{
    let t = vec![
        ("Cipher.getInstance", "javax.crypto.Cipher.getInstance"),
        ("KeyPairGenerator.getInstance", "java.security.KeyPairGenerator.getInstance"),
        ("MessageDigest.getInstance", "java.security.MessageDigest.getInstance"),
        ("Signature.getInstance", "java.security.Signature.getInstance"),
        ("KEM.getInstance", "javax.crypto.KEM.getInstance"),
        ("KeyGenerator.getInstance", "javax.crypto.KeyGenerator.getInstance"),
    ];
    assert(pairs_view(t@) =~= java_callee_table());
    t
}

/// Java crypto-enum classes whose members name an algorithm.
pub open spec fn java_enum_class_table() -> Seq<(Seq<char>, Seq<char>)> {
    seq![
        ("SignatureAlgorithm"@, "io.jsonwebtoken.SignatureAlgorithm"@),
        ("Algorithm"@, "com.auth0.jwt.Algorithm"@),
        ("JWSAlgorithm"@, "com.nimbusds.jose.JWSAlgorithm"@),
        ("JWEAlgorithm"@, "com.nimbusds.jose.JWEAlgorithm"@),
        ("EncryptionMethod"@, "com.nimbusds.jose.EncryptionMethod"@),
        ("AlgorithmIdentifiers"@, "org.jose4j.jws.AlgorithmIdentifiers"@),
    ]
}

/// Java crypto-enum classes whose members name an algorithm.
pub fn java_enum_class_apis() -> (t: Vec<(&'static str, &'static str)>)
    ensures
        pairs_view(t@) == java_enum_class_table(),
{
    let t = vec![
        ("SignatureAlgorithm", "io.jsonwebtoken.SignatureAlgorithm"),
        ("Algorithm", "com.auth0.jwt.Algorithm"),
        ("JWSAlgorithm", "com.nimbusds.jose.JWSAlgorithm"),
        ("JWEAlgorithm", "com.nimbusds.jose.JWEAlgorithm"),
        ("EncryptionMethod", "com.nimbusds.jose.EncryptionMethod"),
        ("AlgorithmIdentifiers", "org.jose4j.jws.AlgorithmIdentifiers"),
    ];
    assert(pairs_view(t@) =~= java_enum_class_table());
    t
}

/// BouncyCastle classes reached through `new Foo()`.
pub open spec fn java_ctor_table() -> Seq<(Seq<char>, Seq<char>)> {
    seq![
        ("RSAKeyPairGenerator"@, "org.bouncycastle.RSAKeyPairGenerator"@),
        ("AESEngine"@, "org.bouncycastle.AESEngine"@),
        ("GCMBlockCipher"@, "org.bouncycastle.GCMBlockCipher"@),
        ("BouncyCastleProvider"@, "org.bouncycastle.BouncyCastleProvider"@),
        ("MLKEMKeyPairGenerator"@, "org.bouncycastle.MLKEMKeyPairGenerator"@),
        ("MLDSAKeyPairGenerator"@, "org.bouncycastle.MLDSAKeyPairGenerator"@),
        ("SLHDSAKeyPairGenerator"@, "org.bouncycastle.SLHDSAKeyPairGenerator"@),
        ("MLKEMGenerator"@, "org.bouncycastle.MLKEMGenerator"@),
        ("MLKEMExtractor"@, "org.bouncycastle.MLKEMExtractor"@),
        ("MLDSASigner"@, "org.bouncycastle.MLDSASigner"@),
        ("SLHDSASigner"@, "org.bouncycastle.SLHDSASigner"@),
        ("HashMLDSASigner"@, "org.bouncycastle.HashMLDSASigner"@),
        ("HashSLHDSASigner"@, "org.bouncycastle.HashSLHDSASigner"@),
        ("DilithiumSigner"@, "org.bouncycastle.DilithiumSigner"@),
        ("SPHINCSPlusSigner"@, "org.bouncycastle.SPHINCSPlusSigner"@),
        ("XMSSSigner"@, "org.bouncycastle.XMSSSigner"@),
        ("XMSSMTSigner"@, "org.bouncycastle.XMSSMTSigner"@),
    ]
}

/// BouncyCastle classes reached through `new Foo()`.
pub fn java_ctor_apis() -> (t: Vec<(&'static str, &'static str)>)
    ensures
        pairs_view(t@) == java_ctor_table(),
{
    let t = vec![
        ("RSAKeyPairGenerator", "org.bouncycastle.RSAKeyPairGenerator"),
        ("AESEngine", "org.bouncycastle.AESEngine"),
        ("GCMBlockCipher", "org.bouncycastle.GCMBlockCipher"),
        ("BouncyCastleProvider", "org.bouncycastle.BouncyCastleProvider"),
        ("MLKEMKeyPairGenerator", "org.bouncycastle.MLKEMKeyPairGenerator"),
        ("MLDSAKeyPairGenerator", "org.bouncycastle.MLDSAKeyPairGenerator"),
        ("SLHDSAKeyPairGenerator", "org.bouncycastle.SLHDSAKeyPairGenerator"),
        ("MLKEMGenerator", "org.bouncycastle.MLKEMGenerator"),
        ("MLKEMExtractor", "org.bouncycastle.MLKEMExtractor"),
        ("MLDSASigner", "org.bouncycastle.MLDSASigner"),
        ("SLHDSASigner", "org.bouncycastle.SLHDSASigner"),
        ("HashMLDSASigner", "org.bouncycastle.HashMLDSASigner"),
        ("HashSLHDSASigner", "org.bouncycastle.HashSLHDSASigner"),
        ("DilithiumSigner", "org.bouncycastle.DilithiumSigner"),
        ("SPHINCSPlusSigner", "org.bouncycastle.SPHINCSPlusSigner"),
        ("XMSSSigner", "org.bouncycastle.XMSSSigner"),
        ("XMSSMTSigner", "org.bouncycastle.XMSSMTSigner"),
    ];
    assert(pairs_view(t@) =~= java_ctor_table());
    t
}

/// JavaScript/TypeScript member-expression callee text and its api.
pub open spec fn js_callee_table() -> Seq<(Seq<char>, Seq<char>)> {
    seq![
        ("crypto.createCipheriv"@, "node:crypto.createCipheriv"@),
        ("crypto.createHash"@, "node:crypto.createHash"@),
        ("crypto.generateKeyPair"@, "node:crypto.generateKeyPair"@),
        ("crypto.generateKeyPairSync"@, "node:crypto.generateKeyPair"@),
        ("crypto.createSign"@, "node:crypto.createSign"@),
        ("jose.generateKeyPair"@, "jose.generateKeyPair"@),
        ("subtle.generateKey"@, "webcrypto.subtle.generateKey"@),
        ("subtle.sign"@, "webcrypto.subtle.sign"@),
        ("jwt.sign"@, "jsonwebtoken.jwt.sign"@),
        ("CryptoJS.AES.encrypt"@, "crypto-js.AES.encrypt"@),
        ("CryptoJS.AES.decrypt"@, "crypto-js.AES.encrypt"@),
        ("CryptoJS.DES.encrypt"@, "crypto-js.DES.encrypt"@),
        ("CryptoJS.DES.decrypt"@, "crypto-js.DES.encrypt"@),
        ("CryptoJS.TripleDES.encrypt"@, "crypto-js.TripleDES.encrypt"@),
        ("CryptoJS.TripleDES.decrypt"@, "crypto-js.TripleDES.encrypt"@),
        ("CryptoJS.RC4.encrypt"@, "crypto-js.RC4.encrypt"@),
        ("CryptoJS.RC4.decrypt"@, "crypto-js.RC4.encrypt"@),
        ("CryptoJS.MD5"@, "crypto-js.MD5"@),
        ("CryptoJS.SHA1"@, "crypto-js.SHA1"@),
        ("CryptoJS.HmacMD5"@, "crypto-js.HmacMD5"@),
        ("CryptoJS.HmacSHA1"@, "crypto-js.HmacSHA1"@),
    ]
}

/// JavaScript/TypeScript member-expression callee text and its api.
pub fn js_callee_apis() -> (t: Vec<(&'static str, &'static str)>)
    ensures
        pairs_view(t@) == js_callee_table(),
{
    let t = vec![
        ("crypto.createCipheriv", "node:crypto.createCipheriv"),
        ("crypto.createHash", "node:crypto.createHash"),
        ("crypto.generateKeyPair", "node:crypto.generateKeyPair"),
        ("crypto.generateKeyPairSync", "node:crypto.generateKeyPair"),
        ("crypto.createSign", "node:crypto.createSign"),
        ("jose.generateKeyPair", "jose.generateKeyPair"),
        ("subtle.generateKey", "webcrypto.subtle.generateKey"),
        ("subtle.sign", "webcrypto.subtle.sign"),
        ("jwt.sign", "jsonwebtoken.jwt.sign"),
        ("CryptoJS.AES.encrypt", "crypto-js.AES.encrypt"),
        ("CryptoJS.AES.decrypt", "crypto-js.AES.encrypt"),
        ("CryptoJS.DES.encrypt", "crypto-js.DES.encrypt"),
        ("CryptoJS.DES.decrypt", "crypto-js.DES.encrypt"),
        ("CryptoJS.TripleDES.encrypt", "crypto-js.TripleDES.encrypt"),
        ("CryptoJS.TripleDES.decrypt", "crypto-js.TripleDES.encrypt"),
        ("CryptoJS.RC4.encrypt", "crypto-js.RC4.encrypt"),
        ("CryptoJS.RC4.decrypt", "crypto-js.RC4.encrypt"),
        ("CryptoJS.MD5", "crypto-js.MD5"),
        ("CryptoJS.SHA1", "crypto-js.SHA1"),
        ("CryptoJS.HmacMD5", "crypto-js.HmacMD5"),
        ("CryptoJS.HmacSHA1", "crypto-js.HmacSHA1"),
    ];
    assert(pairs_view(t@) =~= js_callee_table());
    t
}

/// `SubtleCrypto` method names, reached through any `.subtle` receiver.
pub open spec fn webcrypto_method_table() -> Seq<(Seq<char>, Seq<char>)> {
    seq![
        ("generateKey"@, "webcrypto.subtle.generateKey"@),
        ("sign"@, "webcrypto.subtle.sign"@),
    ]
}

/// `SubtleCrypto` method names, reached through any `.subtle` receiver.
pub fn webcrypto_method_apis() -> (t: Vec<(&'static str, &'static str)>)
    ensures
        pairs_view(t@) == webcrypto_method_table(),
{
    let t = vec![
        ("generateKey", "webcrypto.subtle.generateKey"),
        ("sign", "webcrypto.subtle.sign"),
    ];
    assert(pairs_view(t@) =~= webcrypto_method_table());
    t
}

/// C/C++ function identifiers and their api.
pub open spec fn c_callee_table() -> Seq<(Seq<char>, Seq<char>)> {
    seq![
        ("RSA_generate_key_ex"@, "openssl.RSA_generate_key_ex"@),
        ("RSA_generate_key"@, "openssl.RSA_generate_key"@),
        ("EVP_EncryptInit_ex"@, "openssl.EVP_EncryptInit_ex"@),
        ("EVP_DigestInit_ex"@, "openssl.EVP_DigestInit_ex"@),
        ("SSL_CTX_set_cipher_list"@, "openssl.SSL_CTX_set_cipher_list"@),
        ("crypto_box_keypair"@, "libsodium.crypto_box_keypair"@),
        ("crypto_sign_keypair"@, "nacl-api.crypto_sign_keypair"@),
        ("mbedtls_rsa_init"@, "mbedtls.mbedtls_rsa_init"@),
        ("mbedtls_pk_setup"@, "mbedtls.mbedtls_pk_setup"@),
        ("OQS_KEM_ml_kem_512_keypair"@, "liboqs.OQS_KEM_stack"@),
        ("OQS_KEM_ml_kem_512_encaps"@, "liboqs.OQS_KEM_stack"@),
        ("OQS_KEM_ml_kem_512_decaps"@, "liboqs.OQS_KEM_stack"@),
        ("OQS_KEM_ml_kem_768_keypair"@, "liboqs.OQS_KEM_stack"@),
        ("OQS_KEM_ml_kem_768_encaps"@, "liboqs.OQS_KEM_stack"@),
        ("OQS_KEM_ml_kem_768_decaps"@, "liboqs.OQS_KEM_stack"@),
        ("OQS_KEM_ml_kem_1024_keypair"@, "liboqs.OQS_KEM_stack"@),
        ("OQS_KEM_ml_kem_1024_encaps"@, "liboqs.OQS_KEM_stack"@),
        ("OQS_KEM_ml_kem_1024_decaps"@, "liboqs.OQS_KEM_stack"@),
        ("OQS_SIG_ml_dsa_44_keypair"@, "liboqs.OQS_SIG_stack"@),
        ("OQS_SIG_ml_dsa_44_sign"@, "liboqs.OQS_SIG_stack"@),
        ("OQS_SIG_ml_dsa_44_verify"@, "liboqs.OQS_SIG_stack"@),
        ("OQS_SIG_ml_dsa_65_keypair"@, "liboqs.OQS_SIG_stack"@),
        ("OQS_SIG_ml_dsa_65_sign"@, "liboqs.OQS_SIG_stack"@),
        ("OQS_SIG_ml_dsa_65_verify"@, "liboqs.OQS_SIG_stack"@),
        ("OQS_SIG_ml_dsa_87_keypair"@, "liboqs.OQS_SIG_stack"@),
        ("OQS_SIG_ml_dsa_87_sign"@, "liboqs.OQS_SIG_stack"@),
        ("OQS_SIG_ml_dsa_87_verify"@, "liboqs.OQS_SIG_stack"@),
        ("OQS_KEM_new"@, "liboqs.OQS_KEM_new"@),
        ("OQS_SIG_new"@, "liboqs.OQS_SIG_new"@),
        ("EVP_PKEY_CTX_new_from_name"@, "openssl.EVP_PKEY_CTX_new_from_name"@),
        ("EVP_PKEY_Q_keygen"@, "openssl.EVP_PKEY_Q_keygen"@),
        ("EVP_PKEY_encapsulate"@, "openssl.EVP_PKEY_encapsulate"@),
        ("EVP_PKEY_decapsulate"@, "openssl.EVP_PKEY_decapsulate"@),
        ("EVP_SIGNATURE_fetch"@, "openssl.EVP_SIGNATURE_fetch"@),
        ("EVP_MD_fetch"@, "openssl.EVP_MD_fetch"@),
        ("BCryptGenerateKeyPair"@, "cng.BCryptGenerateKeyPair"@),
        ("BCryptImportKeyPair"@, "cng.BCryptImportKeyPair"@),
        ("BCryptOpenAlgorithmProvider"@, "cng.BCryptOpenAlgorithmProvider"@),
        ("NCryptIsAlgSupported"@, "cng.NCryptIsAlgSupported"@),
    ]
}

/// C/C++ function identifiers and their api.
pub fn c_callee_apis() -> (t: Vec<(&'static str, &'static str)>)
    ensures
        pairs_view(t@) == c_callee_table(),
{
    let t = vec![
        ("RSA_generate_key_ex", "openssl.RSA_generate_key_ex"),
        ("RSA_generate_key", "openssl.RSA_generate_key"),
        ("EVP_EncryptInit_ex", "openssl.EVP_EncryptInit_ex"),
        ("EVP_DigestInit_ex", "openssl.EVP_DigestInit_ex"),
        ("SSL_CTX_set_cipher_list", "openssl.SSL_CTX_set_cipher_list"),
        ("crypto_box_keypair", "libsodium.crypto_box_keypair"),
        ("crypto_sign_keypair", "nacl-api.crypto_sign_keypair"),
        ("mbedtls_rsa_init", "mbedtls.mbedtls_rsa_init"),
        ("mbedtls_pk_setup", "mbedtls.mbedtls_pk_setup"),
        ("OQS_KEM_ml_kem_512_keypair", "liboqs.OQS_KEM_stack"),
        ("OQS_KEM_ml_kem_512_encaps", "liboqs.OQS_KEM_stack"),
        ("OQS_KEM_ml_kem_512_decaps", "liboqs.OQS_KEM_stack"),
        ("OQS_KEM_ml_kem_768_keypair", "liboqs.OQS_KEM_stack"),
        ("OQS_KEM_ml_kem_768_encaps", "liboqs.OQS_KEM_stack"),
        ("OQS_KEM_ml_kem_768_decaps", "liboqs.OQS_KEM_stack"),
        ("OQS_KEM_ml_kem_1024_keypair", "liboqs.OQS_KEM_stack"),
        ("OQS_KEM_ml_kem_1024_encaps", "liboqs.OQS_KEM_stack"),
        ("OQS_KEM_ml_kem_1024_decaps", "liboqs.OQS_KEM_stack"),
        ("OQS_SIG_ml_dsa_44_keypair", "liboqs.OQS_SIG_stack"),
        ("OQS_SIG_ml_dsa_44_sign", "liboqs.OQS_SIG_stack"),
        ("OQS_SIG_ml_dsa_44_verify", "liboqs.OQS_SIG_stack"),
        ("OQS_SIG_ml_dsa_65_keypair", "liboqs.OQS_SIG_stack"),
        ("OQS_SIG_ml_dsa_65_sign", "liboqs.OQS_SIG_stack"),
        ("OQS_SIG_ml_dsa_65_verify", "liboqs.OQS_SIG_stack"),
        ("OQS_SIG_ml_dsa_87_keypair", "liboqs.OQS_SIG_stack"),
        ("OQS_SIG_ml_dsa_87_sign", "liboqs.OQS_SIG_stack"),
        ("OQS_SIG_ml_dsa_87_verify", "liboqs.OQS_SIG_stack"),
        ("OQS_KEM_new", "liboqs.OQS_KEM_new"),
        ("OQS_SIG_new", "liboqs.OQS_SIG_new"),
        ("EVP_PKEY_CTX_new_from_name", "openssl.EVP_PKEY_CTX_new_from_name"),
        ("EVP_PKEY_Q_keygen", "openssl.EVP_PKEY_Q_keygen"),
        ("EVP_PKEY_encapsulate", "openssl.EVP_PKEY_encapsulate"),
        ("EVP_PKEY_decapsulate", "openssl.EVP_PKEY_decapsulate"),
        ("EVP_SIGNATURE_fetch", "openssl.EVP_SIGNATURE_fetch"),
        ("EVP_MD_fetch", "openssl.EVP_MD_fetch"),
        ("BCryptGenerateKeyPair", "cng.BCryptGenerateKeyPair"),
        ("BCryptImportKeyPair", "cng.BCryptImportKeyPair"),
        ("BCryptOpenAlgorithmProvider", "cng.BCryptOpenAlgorithmProvider"),
        ("NCryptIsAlgSupported", "cng.NCryptIsAlgSupported"),
    ];
    assert(pairs_view(t@) =~= c_callee_table());
    t
}

/// Normalised Rust `Type::method` (or bare free function) and its api.
pub open spec fn rust_callee_table() -> Seq<(Seq<char>, Seq<char>)> {
    seq![
        ("EcdsaKeyPair::generate_pkcs8"@, "ring.EcdsaKeyPair.generate_pkcs8"@),
        ("Ed25519KeyPair::generate_pkcs8"@, "ring.Ed25519KeyPair.generate_pkcs8"@),
        ("Aes256Gcm::new"@, "rustcrypto.Aes256Gcm.new"@),
        ("Aes128Gcm::new"@, "rustcrypto.Aes128Gcm.new"@),
        ("Sha256::new"@, "rustcrypto.Sha256.digest"@),
        ("Sha256::digest"@, "rustcrypto.Sha256.digest"@),
        ("Sha384::new"@, "rustcrypto.Sha384.digest"@),
        ("Sha384::digest"@, "rustcrypto.Sha384.digest"@),
        ("Sha512::new"@, "rustcrypto.Sha512.digest"@),
        ("Sha512::digest"@, "rustcrypto.Sha512.digest"@),
        ("Md5::new"@, "rustcrypto.Md5.digest"@),
        ("Md5::digest"@, "rustcrypto.Md5.digest"@),
        ("Sha1::new"@, "rustcrypto.Sha1.digest"@),
        ("Sha1::digest"@, "rustcrypto.Sha1.digest"@),
        ("ChaCha20Poly1305::new"@, "rustcrypto.ChaCha20Poly1305.new"@),
        ("RsaPrivateKey::new"@, "rsa.RsaPrivateKey.new"@),
        ("Rsa::generate"@, "openssl.Rsa.generate"@),
        ("SigningKey::generate"@, "ed25519_dalek.SigningKey.generate"@),
        ("SigningKey::new"@, "rsa.SigningKey.new"@),
        ("ClientConfig::builder"@, "rustls.ClientConfig.builder"@),
        ("ServerConfig::builder"@, "rustls.ServerConfig.builder"@),
        ("KeyPair::generate_for"@, "rcgen.KeyPair.generate_for"@),
        ("DecapsulationKey::generate"@, "aws_lc_rs.kem.DecapsulationKey.generate"@),
        ("PqdsaKeyPair::generate"@, "aws_lc_rs.signature.PqdsaKeyPair.generate"@),
        ("Kem::new"@, "oqs.kem.Kem.new"@),
        ("Sig::new"@, "oqs.sig.Sig.new"@),
        ("pbkdf2"@, "pbkdf2.pbkdf2"@),
        ("pbkdf2_hmac"@, "pbkdf2.pbkdf2_hmac"@),
        ("pbkdf2_hmac_array"@, "pbkdf2.pbkdf2_hmac"@),
    ]
}

/// Normalised Rust `Type::method` (or bare free function) and its api.
pub fn rust_callee_apis() -> (t: Vec<(&'static str, &'static str)>)
    ensures
        pairs_view(t@) == rust_callee_table(),
{
    let t = vec![
        ("EcdsaKeyPair::generate_pkcs8", "ring.EcdsaKeyPair.generate_pkcs8"),
        ("Ed25519KeyPair::generate_pkcs8", "ring.Ed25519KeyPair.generate_pkcs8"),
        ("Aes256Gcm::new", "rustcrypto.Aes256Gcm.new"),
        ("Aes128Gcm::new", "rustcrypto.Aes128Gcm.new"),
        ("Sha256::new", "rustcrypto.Sha256.digest"),
        ("Sha256::digest", "rustcrypto.Sha256.digest"),
        ("Sha384::new", "rustcrypto.Sha384.digest"),
        ("Sha384::digest", "rustcrypto.Sha384.digest"),
        ("Sha512::new", "rustcrypto.Sha512.digest"),
        ("Sha512::digest", "rustcrypto.Sha512.digest"),
        ("Md5::new", "rustcrypto.Md5.digest"),
        ("Md5::digest", "rustcrypto.Md5.digest"),
        ("Sha1::new", "rustcrypto.Sha1.digest"),
        ("Sha1::digest", "rustcrypto.Sha1.digest"),
        ("ChaCha20Poly1305::new", "rustcrypto.ChaCha20Poly1305.new"),
        ("RsaPrivateKey::new", "rsa.RsaPrivateKey.new"),
        ("Rsa::generate", "openssl.Rsa.generate"),
        ("SigningKey::generate", "ed25519_dalek.SigningKey.generate"),
        ("SigningKey::new", "rsa.SigningKey.new"),
        ("ClientConfig::builder", "rustls.ClientConfig.builder"),
        ("ServerConfig::builder", "rustls.ServerConfig.builder"),
        ("KeyPair::generate_for", "rcgen.KeyPair.generate_for"),
        ("DecapsulationKey::generate", "aws_lc_rs.kem.DecapsulationKey.generate"),
        ("PqdsaKeyPair::generate", "aws_lc_rs.signature.PqdsaKeyPair.generate"),
        ("Kem::new", "oqs.kem.Kem.new"),
        ("Sig::new", "oqs.sig.Sig.new"),
        ("pbkdf2", "pbkdf2.pbkdf2"),
        ("pbkdf2_hmac", "pbkdf2.pbkdf2_hmac"),
        ("pbkdf2_hmac_array", "pbkdf2.pbkdf2_hmac"),
    ];
    assert(pairs_view(t@) =~= rust_callee_table());
    t
}

/// C# `Type.Method` member-access text and its api.
pub open spec fn csharp_callee_table() -> Seq<(Seq<char>, Seq<char>)> {
    seq![
        ("RSA.Create"@, "System.Security.Cryptography.RSA.Create"@),
        ("ECDsa.Create"@, "System.Security.Cryptography.ECDsa.Create"@),
        ("ECDiffieHellman.Create"@, "System.Security.Cryptography.ECDsa.Create"@),
        ("Aes.Create"@, "System.Security.Cryptography.Aes.Create"@),
        ("TripleDES.Create"@, "System.Security.Cryptography.TripleDES.Create"@),
        ("DES.Create"@, "System.Security.Cryptography.DES.Create"@),
        ("SHA1.Create"@, "System.Security.Cryptography.SHA1.Create"@),
        ("SHA256.Create"@, "System.Security.Cryptography.SHA256.Create"@),
        ("SHA384.Create"@, "System.Security.Cryptography.SHA384.Create"@),
        ("SHA512.Create"@, "System.Security.Cryptography.SHA512.Create"@),
        ("SHA3_256.Create"@, "System.Security.Cryptography.SHA3_256.Create"@),
        ("SHA3_384.Create"@, "System.Security.Cryptography.SHA3_384.Create"@),
        ("SHA3_512.Create"@, "System.Security.Cryptography.SHA3_512.Create"@),
        ("MD5.Create"@, "System.Security.Cryptography.MD5.Create"@),
        ("RandomNumberGenerator.Create"@, "System.Security.Cryptography.RandomNumberGenerator.Create"@),
        ("RandomNumberGenerator.GetBytes"@, "System.Security.Cryptography.RandomNumberGenerator.Create"@),
        ("RandomNumberGenerator.Fill"@, "System.Security.Cryptography.RandomNumberGenerator.Create"@),
        ("MLKem.GenerateKey"@, "System.Security.Cryptography.MLKem.GenerateKey"@),
        ("MLDsa.GenerateKey"@, "System.Security.Cryptography.MLDsa.GenerateKey"@),
        ("SlhDsa.GenerateKey"@, "System.Security.Cryptography.SlhDsa.GenerateKey"@),
        ("CompositeMLDsa.GenerateKey"@, "System.Security.Cryptography.CompositeMLDsa.GenerateKey"@),
        ("CompositeMLKem.GenerateKey"@, "System.Security.Cryptography.CompositeMLKem.GenerateKey"@),
        ("MLKem.ImportEncapsulationKey"@, "System.Security.Cryptography.MLKem.ImportEncapsulationKey"@),
        ("MLKem.ImportDecapsulationKey"@, "System.Security.Cryptography.MLKem.ImportDecapsulationKey"@),
        ("MLKem.ImportPrivateSeed"@, "System.Security.Cryptography.MLKem.ImportPrivateSeed"@),
        ("MLKem.ImportPkcs8PrivateKey"@, "System.Security.Cryptography.MLKem.ImportPkcs8PrivateKey"@),
        ("MLKem.ImportSubjectPublicKeyInfo"@, "System.Security.Cryptography.MLKem.ImportSubjectPublicKeyInfo"@),
        ("MLKem.ImportFromPem"@, "System.Security.Cryptography.MLKem.ImportFromPem"@),
        ("MLDsa.ImportMLDsaPrivateKey"@, "System.Security.Cryptography.MLDsa.ImportMLDsaPrivateKey"@),
        ("MLDsa.ImportMLDsaPrivateSeed"@, "System.Security.Cryptography.MLDsa.ImportMLDsaPrivateSeed"@),
        ("MLDsa.ImportMLDsaPublicKey"@, "System.Security.Cryptography.MLDsa.ImportMLDsaPublicKey"@),
        ("MLDsa.ImportPkcs8PrivateKey"@, "System.Security.Cryptography.MLDsa.ImportPkcs8PrivateKey"@),
        ("MLDsa.ImportSubjectPublicKeyInfo"@, "System.Security.Cryptography.MLDsa.ImportSubjectPublicKeyInfo"@),
        ("MLDsa.ImportFromPem"@, "System.Security.Cryptography.MLDsa.ImportFromPem"@),
        ("SlhDsa.ImportSlhDsaPrivateKey"@, "System.Security.Cryptography.SlhDsa.ImportSlhDsaPrivateKey"@),
        ("SlhDsa.ImportSlhDsaPublicKey"@, "System.Security.Cryptography.SlhDsa.ImportSlhDsaPublicKey"@),
        ("SlhDsa.ImportPkcs8PrivateKey"@, "System.Security.Cryptography.SlhDsa.ImportPkcs8PrivateKey"@),
        ("SlhDsa.ImportSubjectPublicKeyInfo"@, "System.Security.Cryptography.SlhDsa.ImportSubjectPublicKeyInfo"@),
        ("SlhDsa.ImportFromPem"@, "System.Security.Cryptography.SlhDsa.ImportFromPem"@),
    ]
}

/// C# `Type.Method` member-access text and its api.
pub fn csharp_callee_apis() -> (t: Vec<(&'static str, &'static str)>)
    ensures
        pairs_view(t@) == csharp_callee_table(),
{
    let t = vec![
        ("RSA.Create", "System.Security.Cryptography.RSA.Create"),
        ("ECDsa.Create", "System.Security.Cryptography.ECDsa.Create"),
        ("ECDiffieHellman.Create", "System.Security.Cryptography.ECDsa.Create"),
        ("Aes.Create", "System.Security.Cryptography.Aes.Create"),
        ("TripleDES.Create", "System.Security.Cryptography.TripleDES.Create"),
        ("DES.Create", "System.Security.Cryptography.DES.Create"),
        ("SHA1.Create", "System.Security.Cryptography.SHA1.Create"),
        ("SHA256.Create", "System.Security.Cryptography.SHA256.Create"),
        ("SHA384.Create", "System.Security.Cryptography.SHA384.Create"),
        ("SHA512.Create", "System.Security.Cryptography.SHA512.Create"),
        ("SHA3_256.Create", "System.Security.Cryptography.SHA3_256.Create"),
        ("SHA3_384.Create", "System.Security.Cryptography.SHA3_384.Create"),
        ("SHA3_512.Create", "System.Security.Cryptography.SHA3_512.Create"),
        ("MD5.Create", "System.Security.Cryptography.MD5.Create"),
        ("RandomNumberGenerator.Create", "System.Security.Cryptography.RandomNumberGenerator.Create"),
        ("RandomNumberGenerator.GetBytes", "System.Security.Cryptography.RandomNumberGenerator.Create"),
        ("RandomNumberGenerator.Fill", "System.Security.Cryptography.RandomNumberGenerator.Create"),
        ("MLKem.GenerateKey", "System.Security.Cryptography.MLKem.GenerateKey"),
        ("MLDsa.GenerateKey", "System.Security.Cryptography.MLDsa.GenerateKey"),
        ("SlhDsa.GenerateKey", "System.Security.Cryptography.SlhDsa.GenerateKey"),
        ("CompositeMLDsa.GenerateKey", "System.Security.Cryptography.CompositeMLDsa.GenerateKey"),
        ("CompositeMLKem.GenerateKey", "System.Security.Cryptography.CompositeMLKem.GenerateKey"),
        ("MLKem.ImportEncapsulationKey", "System.Security.Cryptography.MLKem.ImportEncapsulationKey"),
        ("MLKem.ImportDecapsulationKey", "System.Security.Cryptography.MLKem.ImportDecapsulationKey"),
        ("MLKem.ImportPrivateSeed", "System.Security.Cryptography.MLKem.ImportPrivateSeed"),
        ("MLKem.ImportPkcs8PrivateKey", "System.Security.Cryptography.MLKem.ImportPkcs8PrivateKey"),
        ("MLKem.ImportSubjectPublicKeyInfo", "System.Security.Cryptography.MLKem.ImportSubjectPublicKeyInfo"),
        ("MLKem.ImportFromPem", "System.Security.Cryptography.MLKem.ImportFromPem"),
        ("MLDsa.ImportMLDsaPrivateKey", "System.Security.Cryptography.MLDsa.ImportMLDsaPrivateKey"),
        ("MLDsa.ImportMLDsaPrivateSeed", "System.Security.Cryptography.MLDsa.ImportMLDsaPrivateSeed"),
        ("MLDsa.ImportMLDsaPublicKey", "System.Security.Cryptography.MLDsa.ImportMLDsaPublicKey"),
        ("MLDsa.ImportPkcs8PrivateKey", "System.Security.Cryptography.MLDsa.ImportPkcs8PrivateKey"),
        ("MLDsa.ImportSubjectPublicKeyInfo", "System.Security.Cryptography.MLDsa.ImportSubjectPublicKeyInfo"),
        ("MLDsa.ImportFromPem", "System.Security.Cryptography.MLDsa.ImportFromPem"),
        ("SlhDsa.ImportSlhDsaPrivateKey", "System.Security.Cryptography.SlhDsa.ImportSlhDsaPrivateKey"),
        ("SlhDsa.ImportSlhDsaPublicKey", "System.Security.Cryptography.SlhDsa.ImportSlhDsaPublicKey"),
        ("SlhDsa.ImportPkcs8PrivateKey", "System.Security.Cryptography.SlhDsa.ImportPkcs8PrivateKey"),
        ("SlhDsa.ImportSubjectPublicKeyInfo", "System.Security.Cryptography.SlhDsa.ImportSubjectPublicKeyInfo"),
        ("SlhDsa.ImportFromPem", "System.Security.Cryptography.SlhDsa.ImportFromPem"),
    ];
    assert(pairs_view(t@) =~= csharp_callee_table());
    t
}

/// C# classes reached through `new Foo()`.
pub open spec fn csharp_ctor_table() -> Seq<(Seq<char>, Seq<char>)> {
    seq![
        ("RijndaelManaged"@, "System.Security.Cryptography.RijndaelManaged.new"@),
        ("MLKemKeyGenerationParameters"@, "Org.BouncyCastle.Crypto.Parameters.MLKemKeyGenerationParameters.new"@),
        ("MLDsaKeyGenerationParameters"@, "Org.BouncyCastle.Crypto.Parameters.MLDsaKeyGenerationParameters.new"@),
        ("MLKemEncapsulator"@, "Org.BouncyCastle.Crypto.Kems.MLKemEncapsulator.new"@),
        ("MLKemDecapsulator"@, "Org.BouncyCastle.Crypto.Kems.MLKemDecapsulator.new"@),
        ("MLDsaSigner"@, "Org.BouncyCastle.Crypto.Signers.MLDsaSigner.new"@),
        ("MLKemCng"@, "System.Security.Cryptography.MLKemCng.new"@),
        ("MLDsaCng"@, "System.Security.Cryptography.MLDsaCng.new"@),
        ("SlhDsaCng"@, "System.Security.Cryptography.SlhDsaCng.new"@),
        ("CompositeMLDsaCng"@, "System.Security.Cryptography.CompositeMLDsaCng.new"@),
        ("LmsKeyGenerationParameters"@, "Org.BouncyCastle.Pqc.Crypto.Lms.LmsKeyGenerationParameters.new"@),
        ("HssKeyGenerationParameters"@, "Org.BouncyCastle.Pqc.Crypto.Lms.HssKeyGenerationParameters.new"@),
    ]
}

/// C# classes reached through `new Foo()`.
pub fn csharp_ctor_apis() -> (t: Vec<(&'static str, &'static str)>)
    ensures
        pairs_view(t@) == csharp_ctor_table(),
{
    let t = vec![
        ("RijndaelManaged", "System.Security.Cryptography.RijndaelManaged.new"),
        ("MLKemKeyGenerationParameters", "Org.BouncyCastle.Crypto.Parameters.MLKemKeyGenerationParameters.new"),
        ("MLDsaKeyGenerationParameters", "Org.BouncyCastle.Crypto.Parameters.MLDsaKeyGenerationParameters.new"),
        ("MLKemEncapsulator", "Org.BouncyCastle.Crypto.Kems.MLKemEncapsulator.new"),
        ("MLKemDecapsulator", "Org.BouncyCastle.Crypto.Kems.MLKemDecapsulator.new"),
        ("MLDsaSigner", "Org.BouncyCastle.Crypto.Signers.MLDsaSigner.new"),
        ("MLKemCng", "System.Security.Cryptography.MLKemCng.new"),
        ("MLDsaCng", "System.Security.Cryptography.MLDsaCng.new"),
        ("SlhDsaCng", "System.Security.Cryptography.SlhDsaCng.new"),
        ("CompositeMLDsaCng", "System.Security.Cryptography.CompositeMLDsaCng.new"),
        ("LmsKeyGenerationParameters", "Org.BouncyCastle.Pqc.Crypto.Lms.LmsKeyGenerationParameters.new"),
        ("HssKeyGenerationParameters", "Org.BouncyCastle.Pqc.Crypto.Lms.HssKeyGenerationParameters.new"),
    ];
    assert(pairs_view(t@) =~= csharp_ctor_table());
    t
}

/// `golang.org/x/crypto/ssh` `KeyExchange*` constant names and the wire string each stands for.
pub open spec fn go_ssh_kex_const_table() -> Seq<(Seq<char>, Seq<char>)> {
    seq![
        ("KeyExchangeMLKEM768X25519"@, "mlkem768x25519-sha256"@),
        ("KeyExchangeCurve25519"@, "curve25519-sha256"@),
        ("KeyExchangeECDHP256"@, "ecdh-sha2-nistp256"@),
        ("KeyExchangeECDHP384"@, "ecdh-sha2-nistp384"@),
        ("KeyExchangeECDHP521"@, "ecdh-sha2-nistp521"@),
    ]
}

/// `golang.org/x/crypto/ssh` `KeyExchange*` constant names and the wire string each stands for.
pub fn go_ssh_kex_const_apis() -> (t: Vec<(&'static str, &'static str)>)
    ensures
        pairs_view(t@) == go_ssh_kex_const_table(),
{
    let t = vec![
        ("KeyExchangeMLKEM768X25519", "mlkem768x25519-sha256"),
        ("KeyExchangeCurve25519", "curve25519-sha256"),
        ("KeyExchangeECDHP256", "ecdh-sha2-nistp256"),
        ("KeyExchangeECDHP384", "ecdh-sha2-nistp384"),
        ("KeyExchangeECDHP521", "ecdh-sha2-nistp521"),
    ];
    assert(pairs_view(t@) =~= go_ssh_kex_const_table());
    t
}

/// APIs emitted by the structural matchers, keyed on an AST shape rather than a callee string.
pub open spec fn structural_list() -> Seq<Seq<char>> {
    seq![
        "crypto/ecdh.Curve"@,
        "crypto/tls.Config.CurvePreferences"@,
        "crypto/tls.Config.MinVersion"@,
        "golang.org/x/crypto/ssh.Config.KeyExchanges"@,
        "javax.net.ssl.SSLParameters.setNamedGroups"@,
        "org.bouncycastle.tls.NamedGroup"@,
        "openssl.SSL_CTX_set1_groups_list"@,
        "rustls.CryptoProvider.kx_groups"@,
        "openmls.Ciphersuite"@,
        "liboqs-go/oqs.KeyEncapsulation"@,
        "liboqs-go/oqs.Signature"@,
    ]
}

/// APIs emitted by the structural matchers, keyed on an AST shape rather than a callee string.
pub fn structural_strs() -> (t: Vec<&'static str>)
    ensures
        strs_view(t@) == structural_list(),
{
    let t = vec![
        "crypto/ecdh.Curve",
        "crypto/tls.Config.CurvePreferences",
        "crypto/tls.Config.MinVersion",
        "golang.org/x/crypto/ssh.Config.KeyExchanges",
        "javax.net.ssl.SSLParameters.setNamedGroups",
        "org.bouncycastle.tls.NamedGroup",
        "openssl.SSL_CTX_set1_groups_list",
        "rustls.CryptoProvider.kx_groups",
        "openmls.Ciphersuite",
        "liboqs-go/oqs.KeyEncapsulation",
        "liboqs-go/oqs.Signature",
    ];
    assert(strs_view(t@) =~= structural_list());
    t
}

/// JOSE/JWA algorithm names the Go string-table matchers recognise.
pub open spec fn go_alg_whitelist_list() -> Seq<Seq<char>> {
    seq![
        "RS256"@,
        "RS384"@,
        "RS512"@,
        "PS256"@,
        "PS384"@,
        "PS512"@,
        "ES256"@,
        "ES384"@,
        "ES512"@,
        "EdDSA"@,
        "HS256"@,
        "HS384"@,
        "HS512"@,
        "none"@,
        "RSA-OAEP"@,
        "RSA-OAEP-256"@,
        "A256GCM"@,
        "A192GCM"@,
        "A128GCM"@,
    ]
}

/// JOSE/JWA algorithm names the Go string-table matchers recognise.
pub fn go_alg_whitelist_strs() -> (t: Vec<&'static str>)
    ensures
        strs_view(t@) == go_alg_whitelist_list(),
{
    let t = vec![
        "RS256",
        "RS384",
        "RS512",
        "PS256",
        "PS384",
        "PS512",
        "ES256",
        "ES384",
        "ES512",
        "EdDSA",
        "HS256",
        "HS384",
        "HS512",
        "none",
        "RSA-OAEP",
        "RSA-OAEP-256",
        "A256GCM",
        "A192GCM",
        "A128GCM",
    ];
    assert(strs_view(t@) =~= go_alg_whitelist_list());
    t
}

} // verus!
