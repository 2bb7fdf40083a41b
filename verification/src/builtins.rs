//! The built-in data bundle: algorithm table, OID table and default policy,
//! and what the built-in data promises of itself.
use vstd::prelude::*;
use crate::algorithms::{AlgorithmRecord, AlgorithmTable, QuantumStatus, builtin_algorithm_rows, ids_distinct, record_ids, record_summary};
use crate::oid::{OidMapping, OidTable, builtin_oid_rows, mapping_view};
use crate::policy::{Policy, classically_broken_ids, nist_default_facts, policy_ids_known, preset_disallowed, preset_list, preset_source_url};
use crate::packs::{cpp_rules, csharp_rules, go_rules, java_rules, javascript_rules, python_rules, rust_rules};
use crate::rules::RuleRow;
use crate::text::owned;

verus! {

/// Errors loading the built-in or user-supplied data.
#[derive(Debug, Clone)]
pub enum LoadError {
    /// The text was not valid TOML for the table.
    Toml(String),
    /// The file could not be read.
    Io(String),
    /// A table or policy invariant does not hold.
    Invariant(String),
}

/// The bundle of built-in data shipped with the library.
pub struct Builtins {
    pub algorithms: AlgorithmTable,
    pub oids: OidTable,
    pub policy: Policy,
}

/// The algorithm-ids of the built-in algorithm table.
pub open spec fn builtin_ids() -> Seq<Seq<char>> {
    builtin_algorithm_rows().map_values(|x: (Seq<char>, QuantumStatus, Seq<char>, Option<Seq<char>>)| x.0)
}

/// No OID of the built-in OID table is listed twice.
pub open spec fn builtin_oids_distinct() -> bool {
    forall|i: int, j: int| 0 <= i < j < builtin_oid_rows().len() ==> builtin_oid_rows()[i].0 != builtin_oid_rows()[j].0
}

/// The error a built-in algorithm table with a repeated id is refused with.
pub open spec fn duplicate_algorithm_message() -> Seq<char> {
    "duplicate algorithm-id in the algorithm table"@
}

/// Load the built-in algorithm table, OID table and default policy, in that
/// order; the first that fails to load is the error.
pub fn load_builtins() -> (r: Result<Builtins, LoadError>)
    ensures
        r is Ok <==> ids_distinct(builtin_ids()) && builtin_oids_distinct(),
        r matches Ok(b) ==> b.algorithms.rows().map_values(|rec: AlgorithmRecord| record_summary(rec)) == builtin_algorithm_rows()
            && b.algorithms.ids() == builtin_ids()
            && b.oids.rows().map_values(|m: OidMapping| mapping_view(m)) == builtin_oid_rows()
            && b.policy.meta.name@ == "nist-default"@ && b.policy.meta.source_url@ == preset_source_url("nist-default"@)
            && nist_default_facts(b.policy) && b.policy.deprecation.policy_disallowed@.len() == 0,
        r matches Err(e) ==> if !ids_distinct(builtin_ids()) {
            e matches LoadError::Invariant(m) && m@ == duplicate_algorithm_message()
        } else {
            !builtin_oids_distinct() && e is Invariant
        },
{
    let algorithms = match AlgorithmTable::from_builtin() {
        Some(t) => t,
        None => {
            return Err(LoadError::Invariant(owned("duplicate algorithm-id in the algorithm table")));
        },
    };
    proof {
        assert(algorithms.ids() =~= builtin_ids()) by {
            assert forall|i: int| 0 <= i < algorithms.rows().len() implies #[trigger] record_ids(algorithms.rows())[i] == builtin_ids()[i] by {
                assert(algorithms.rows().map_values(|rec: AlgorithmRecord| record_summary(rec))[i] == record_summary(algorithms.rows()[i]));
            }
        }
    }
    let oids = match OidTable::from_builtin() {
        Ok(t) => t,
        Err(e) => {
            return Err(e);
        },
    };
    let policy = match Policy::from_builtin() {
        Ok(p) => p,
        Err(e) => {
            return Err(e);
        },
    };
    Ok(Builtins { algorithms, oids, policy })
}

/// Every rule of `rows` names an algorithm of the built-in table.
pub open spec fn algorithms_known(rows: Seq<RuleRow>) -> bool {
    forall|i: int| 0 <= i < rows.len() ==> builtin_ids().contains(#[trigger] rows[i].algorithm_id)
}

proof fn lemma_go_algorithms_known()
    ensures
        algorithms_known(go_rules()),
{
    assert(builtin_ids()[0] == "md5"@);
    assert(builtin_ids()[1] == "sha-1"@);
    assert(builtin_ids()[3] == "3des"@);
    assert(builtin_ids()[4] == "rc4"@);
    assert(builtin_ids()[7] == "rsa-undersized"@);
    assert(builtin_ids()[8] == "rsa-2048"@);
    assert(builtin_ids()[9] == "rsa-3072"@);
    assert(builtin_ids()[10] == "rsa-4096"@);
    assert(builtin_ids()[12] == "ecdsa-p256"@);
    assert(builtin_ids()[13] == "ecdsa-p384"@);
    assert(builtin_ids()[14] == "ecdsa-p521"@);
    assert(builtin_ids()[16] == "ecdh-p256"@);
    assert(builtin_ids()[17] == "ecdh-p384"@);
    assert(builtin_ids()[18] == "ecdh-p521"@);
    assert(builtin_ids()[20] == "x25519"@);
    assert(builtin_ids()[21] == "ed25519"@);
    assert(builtin_ids()[28] == "sha-256"@);
    assert(builtin_ids()[30] == "sha-512"@);
}

proof fn lemma_python_algorithms_known()
    ensures
        algorithms_known(python_rules()),
{
    assert(builtin_ids()[0] == "md5"@);
    assert(builtin_ids()[1] == "sha-1"@);
    assert(builtin_ids()[2] == "des"@);
    assert(builtin_ids()[3] == "3des"@);
    assert(builtin_ids()[7] == "rsa-undersized"@);
    assert(builtin_ids()[8] == "rsa-2048"@);
    assert(builtin_ids()[9] == "rsa-3072"@);
    assert(builtin_ids()[12] == "ecdsa-p256"@);
    assert(builtin_ids()[13] == "ecdsa-p384"@);
    assert(builtin_ids()[42] == "ml-kem-768"@);
}

proof fn lemma_java_algorithms_known()
    ensures
        algorithms_known(java_rules()),
{
    assert(builtin_ids()[0] == "md5"@);
    assert(builtin_ids()[1] == "sha-1"@);
    assert(builtin_ids()[2] == "des"@);
    assert(builtin_ids()[11] == "rsa-unattributed"@);
    assert(builtin_ids()[22] == "aes-128-ecb"@);
    assert(builtin_ids()[23] == "aes-unattributed-ecb"@);
    assert(builtin_ids()[29] == "sha-384"@);
}

proof fn lemma_javascript_algorithms_known()
    ensures
        algorithms_known(javascript_rules()),
{
    assert(builtin_ids()[0] == "md5"@);
    assert(builtin_ids()[1] == "sha-1"@);
    assert(builtin_ids()[2] == "des"@);
    assert(builtin_ids()[5] == "jwt-alg-none"@);
    assert(builtin_ids()[11] == "rsa-unattributed"@);
    assert(builtin_ids()[12] == "ecdsa-p256"@);
    assert(builtin_ids()[13] == "ecdsa-p384"@);
    assert(builtin_ids()[15] == "ecdsa-unattributed"@);
    assert(builtin_ids()[31] == "sha3-384"@);
}

proof fn lemma_cpp_algorithms_known()
    ensures
        algorithms_known(cpp_rules()),
{
    assert(builtin_ids()[0] == "md5"@);
    assert(builtin_ids()[1] == "sha-1"@);
    assert(builtin_ids()[7] == "rsa-undersized"@);
    assert(builtin_ids()[8] == "rsa-2048"@);
    assert(builtin_ids()[11] == "rsa-unattributed"@);
    assert(builtin_ids()[25] == "aes-256-gcm"@);
}

proof fn lemma_rust_algorithms_known()
    ensures
        algorithms_known(rust_rules()),
{
    assert(builtin_ids()[0] == "md5"@);
    assert(builtin_ids()[1] == "sha-1"@);
    assert(builtin_ids()[7] == "rsa-undersized"@);
    assert(builtin_ids()[8] == "rsa-2048"@);
    assert(builtin_ids()[10] == "rsa-4096"@);
    assert(builtin_ids()[11] == "rsa-unattributed"@);
    assert(builtin_ids()[12] == "ecdsa-p256"@);
    assert(builtin_ids()[13] == "ecdsa-p384"@);
    assert(builtin_ids()[14] == "ecdsa-p521"@);
    assert(builtin_ids()[15] == "ecdsa-unattributed"@);
    assert(builtin_ids()[16] == "ecdh-p256"@);
    assert(builtin_ids()[17] == "ecdh-p384"@);
    assert(builtin_ids()[18] == "ecdh-p521"@);
    assert(builtin_ids()[20] == "x25519"@);
    assert(builtin_ids()[21] == "ed25519"@);
    assert(builtin_ids()[24] == "aes-128-gcm"@);
    assert(builtin_ids()[25] == "aes-256-gcm"@);
    assert(builtin_ids()[27] == "chacha20-poly1305"@);
    assert(builtin_ids()[28] == "sha-256"@);
    assert(builtin_ids()[29] == "sha-384"@);
    assert(builtin_ids()[30] == "sha-512"@);
    assert(builtin_ids()[32] == "rsa-pkcs1-sha1"@);
    assert(builtin_ids()[33] == "rsa-pkcs1-sha256"@);
    assert(builtin_ids()[34] == "rsa-pkcs1-sha384"@);
    assert(builtin_ids()[35] == "rsa-pkcs1-sha512"@);
    assert(builtin_ids()[36] == "tls-unattributed"@);
    assert(builtin_ids()[37] == "x25519-mlkem768"@);
    assert(builtin_ids()[38] == "secp256r1-mlkem768"@);
    assert(builtin_ids()[39] == "x-wing"@);
    assert(builtin_ids()[40] == "kem-unattributed"@);
    assert(builtin_ids()[41] == "ml-kem-512"@);
    assert(builtin_ids()[42] == "ml-kem-768"@);
    assert(builtin_ids()[43] == "ml-kem-1024"@);
    assert(builtin_ids()[44] == "ml-dsa-44"@);
    assert(builtin_ids()[45] == "ml-dsa-65"@);
    assert(builtin_ids()[46] == "ml-dsa-87"@);
}

proof fn lemma_csharp_algorithms_known()
    ensures
        algorithms_known(csharp_rules()),
{
    assert(builtin_ids()[0] == "md5"@);
    assert(builtin_ids()[1] == "sha-1"@);
    assert(builtin_ids()[2] == "des"@);
    assert(builtin_ids()[3] == "3des"@);
    assert(builtin_ids()[11] == "rsa-unattributed"@);
    assert(builtin_ids()[15] == "ecdsa-unattributed"@);
    assert(builtin_ids()[28] == "sha-256"@);
    assert(builtin_ids()[29] == "sha-384"@);
    assert(builtin_ids()[30] == "sha-512"@);
}

/// Every rule of every built-in pack names an algorithm of the built-in
/// algorithm table.
pub proof fn lemma_builtin_packs_name_known_algorithms()
    ensures
        algorithms_known(go_rules()),
        algorithms_known(python_rules()),
        algorithms_known(java_rules()),
        algorithms_known(javascript_rules()),
        algorithms_known(cpp_rules()),
        algorithms_known(rust_rules()),
        algorithms_known(csharp_rules()),
{
    lemma_go_algorithms_known();
    lemma_python_algorithms_known();
    lemma_java_algorithms_known();
    lemma_javascript_algorithms_known();
    lemma_cpp_algorithms_known();
    lemma_rust_algorithms_known();
    lemma_csharp_algorithms_known();
}

/// Every built-in preset passes the policy cross-check against the built-in
/// algorithm table: each algorithm it counts as classically broken, and
/// each it disallows, is in the table.
pub proof fn lemma_presets_pass_cross_check(p: Policy, name: Seq<char>)
    requires
        preset_list().contains(name),
        p.deprecation.classically_broken@.map_values(|s: String| s@) == classically_broken_ids(),
        p.deprecation.policy_disallowed@.map_values(|s: String| s@) == preset_disallowed(name),
    ensures
        policy_ids_known(p, builtin_ids()),
{
    let broken = classically_broken_ids();
    let cnsa = preset_disallowed("nsa-cnsa2"@);
    assert forall|k: int| 0 <= k < broken.len() implies builtin_ids().contains(#[trigger] broken[k]) by {
        if k == 0 {
            assert(builtin_ids()[0] == broken[0]);
        } else if k == 1 {
            assert(builtin_ids()[1] == broken[1]);
        } else if k == 2 {
            assert(builtin_ids()[2] == broken[2]);
        } else if k == 3 {
            assert(builtin_ids()[3] == broken[3]);
        } else if k == 4 {
            assert(builtin_ids()[4] == broken[4]);
        }
    }
    assert forall|k: int| 0 <= k < cnsa.len() implies builtin_ids().contains(#[trigger] cnsa[k]) by {
        if k == 0 {
            assert(builtin_ids()[24] == cnsa[0]);
        } else if k == 1 {
            assert(builtin_ids()[28] == cnsa[1]);
        } else if k == 2 {
            assert(builtin_ids()[41] == cnsa[2]);
        } else if k == 3 {
            assert(builtin_ids()[42] == cnsa[3]);
        } else if k == 4 {
            assert(builtin_ids()[44] == cnsa[4]);
        } else if k == 5 {
            assert(builtin_ids()[45] == cnsa[5]);
        } else if k == 6 {
            assert(builtin_ids()[47] == cnsa[6]);
        }
    }
    let cb = p.deprecation.classically_broken@;
    let pd = p.deprecation.policy_disallowed@;
    assert forall|i: int| 0 <= i < cb.len() implies builtin_ids().contains(#[trigger] cb[i]@) by {
        assert(cb.map_values(|s: String| s@)[i] == cb[i]@);
        assert(cb[i]@ == broken[i]);
    }
    assert forall|i: int| 0 <= i < pd.len() implies builtin_ids().contains(#[trigger] pd[i]@) by {
        assert(pd.map_values(|s: String| s@)[i] == pd[i]@);
        if name == "nsa-cnsa2"@ {
            assert(pd[i]@ == cnsa[i]);
            assert(builtin_ids().contains(cnsa[i]));
        } else {
            assert(pd.map_values(|s: String| s@).len() == 0);
        }
    }
}

/// No algorithm-id of the built-in algorithm table is listed twice.
pub proof fn lemma_builtin_ids_distinct()
    ensures
        ids_distinct(builtin_ids()),
{
    let ids = builtin_ids();
    assert(ids.len() == 49);
    reveal_strlit("md5");
    assert("md5"@.len() == 3);
    assert("md5"@[0] == 'm');
    assert("md5"@[1] == 'd');
    assert("md5"@[2] == '5');
    reveal_strlit("sha-1");
    assert("sha-1"@.len() == 5);
    assert("sha-1"@[0] == 's');
    assert("sha-1"@[1] == 'h');
    assert("sha-1"@[2] == 'a');
    assert("sha-1"@[3] == '-');
    assert("sha-1"@[4] == '1');
    reveal_strlit("des");
    assert("des"@.len() == 3);
    assert("des"@[0] == 'd');
    assert("des"@[1] == 'e');
    assert("des"@[2] == 's');
    reveal_strlit("3des");
    assert("3des"@.len() == 4);
    assert("3des"@[0] == '3');
    assert("3des"@[1] == 'd');
    assert("3des"@[2] == 'e');
    assert("3des"@[3] == 's');
    reveal_strlit("rc4");
    assert("rc4"@.len() == 3);
    assert("rc4"@[0] == 'r');
    assert("rc4"@[1] == 'c');
    assert("rc4"@[2] == '4');
    reveal_strlit("jwt-alg-none");
    assert("jwt-alg-none"@.len() == 12);
    assert("jwt-alg-none"@[0] == 'j');
    assert("jwt-alg-none"@[1] == 'w');
    assert("jwt-alg-none"@[2] == 't');
    assert("jwt-alg-none"@[3] == '-');
    assert("jwt-alg-none"@[4] == 'a');
    assert("jwt-alg-none"@[5] == 'l');
    assert("jwt-alg-none"@[6] == 'g');
    assert("jwt-alg-none"@[7] == '-');
    assert("jwt-alg-none"@[8] == 'n');
    assert("jwt-alg-none"@[9] == 'o');
    assert("jwt-alg-none"@[10] == 'n');
    assert("jwt-alg-none"@[11] == 'e');
    reveal_strlit("weak-cipher-suite");
    assert("weak-cipher-suite"@.len() == 17);
    assert("weak-cipher-suite"@[0] == 'w');
    assert("weak-cipher-suite"@[1] == 'e');
    assert("weak-cipher-suite"@[2] == 'a');
    assert("weak-cipher-suite"@[3] == 'k');
    assert("weak-cipher-suite"@[4] == '-');
    assert("weak-cipher-suite"@[5] == 'c');
    assert("weak-cipher-suite"@[6] == 'i');
    assert("weak-cipher-suite"@[7] == 'p');
    assert("weak-cipher-suite"@[8] == 'h');
    assert("weak-cipher-suite"@[9] == 'e');
    assert("weak-cipher-suite"@[10] == 'r');
    assert("weak-cipher-suite"@[11] == '-');
    assert("weak-cipher-suite"@[12] == 's');
    assert("weak-cipher-suite"@[13] == 'u');
    assert("weak-cipher-suite"@[14] == 'i');
    assert("weak-cipher-suite"@[15] == 't');
    assert("weak-cipher-suite"@[16] == 'e');
    reveal_strlit("rsa-undersized");
    assert("rsa-undersized"@.len() == 14);
    assert("rsa-undersized"@[0] == 'r');
    assert("rsa-undersized"@[1] == 's');
    assert("rsa-undersized"@[2] == 'a');
    assert("rsa-undersized"@[3] == '-');
    assert("rsa-undersized"@[4] == 'u');
    assert("rsa-undersized"@[5] == 'n');
    assert("rsa-undersized"@[6] == 'd');
    assert("rsa-undersized"@[7] == 'e');
    assert("rsa-undersized"@[8] == 'r');
    assert("rsa-undersized"@[9] == 's');
    assert("rsa-undersized"@[10] == 'i');
    assert("rsa-undersized"@[11] == 'z');
    assert("rsa-undersized"@[12] == 'e');
    assert("rsa-undersized"@[13] == 'd');
    reveal_strlit("rsa-2048");
    assert("rsa-2048"@.len() == 8);
    assert("rsa-2048"@[0] == 'r');
    assert("rsa-2048"@[1] == 's');
    assert("rsa-2048"@[2] == 'a');
    assert("rsa-2048"@[3] == '-');
    assert("rsa-2048"@[4] == '2');
    assert("rsa-2048"@[5] == '0');
    assert("rsa-2048"@[6] == '4');
    assert("rsa-2048"@[7] == '8');
    reveal_strlit("rsa-3072");
    assert("rsa-3072"@.len() == 8);
    assert("rsa-3072"@[0] == 'r');
    assert("rsa-3072"@[1] == 's');
    assert("rsa-3072"@[2] == 'a');
    assert("rsa-3072"@[3] == '-');
    assert("rsa-3072"@[4] == '3');
    assert("rsa-3072"@[5] == '0');
    assert("rsa-3072"@[6] == '7');
    assert("rsa-3072"@[7] == '2');
    reveal_strlit("rsa-4096");
    assert("rsa-4096"@.len() == 8);
    assert("rsa-4096"@[0] == 'r');
    assert("rsa-4096"@[1] == 's');
    assert("rsa-4096"@[2] == 'a');
    assert("rsa-4096"@[3] == '-');
    assert("rsa-4096"@[4] == '4');
    assert("rsa-4096"@[5] == '0');
    assert("rsa-4096"@[6] == '9');
    assert("rsa-4096"@[7] == '6');
    reveal_strlit("rsa-unattributed");
    assert("rsa-unattributed"@.len() == 16);
    assert("rsa-unattributed"@[0] == 'r');
    assert("rsa-unattributed"@[1] == 's');
    assert("rsa-unattributed"@[2] == 'a');
    assert("rsa-unattributed"@[3] == '-');
    assert("rsa-unattributed"@[4] == 'u');
    assert("rsa-unattributed"@[5] == 'n');
    assert("rsa-unattributed"@[6] == 'a');
    assert("rsa-unattributed"@[7] == 't');
    assert("rsa-unattributed"@[8] == 't');
    assert("rsa-unattributed"@[9] == 'r');
    assert("rsa-unattributed"@[10] == 'i');
    assert("rsa-unattributed"@[11] == 'b');
    assert("rsa-unattributed"@[12] == 'u');
    assert("rsa-unattributed"@[13] == 't');
    assert("rsa-unattributed"@[14] == 'e');
    assert("rsa-unattributed"@[15] == 'd');
    reveal_strlit("ecdsa-p256");
    assert("ecdsa-p256"@.len() == 10);
    assert("ecdsa-p256"@[0] == 'e');
    assert("ecdsa-p256"@[1] == 'c');
    assert("ecdsa-p256"@[2] == 'd');
    assert("ecdsa-p256"@[3] == 's');
    assert("ecdsa-p256"@[4] == 'a');
    assert("ecdsa-p256"@[5] == '-');
    assert("ecdsa-p256"@[6] == 'p');
    assert("ecdsa-p256"@[7] == '2');
    assert("ecdsa-p256"@[8] == '5');
    assert("ecdsa-p256"@[9] == '6');
    reveal_strlit("ecdsa-p384");
    assert("ecdsa-p384"@.len() == 10);
    assert("ecdsa-p384"@[0] == 'e');
    assert("ecdsa-p384"@[1] == 'c');
    assert("ecdsa-p384"@[2] == 'd');
    assert("ecdsa-p384"@[3] == 's');
    assert("ecdsa-p384"@[4] == 'a');
    assert("ecdsa-p384"@[5] == '-');
    assert("ecdsa-p384"@[6] == 'p');
    assert("ecdsa-p384"@[7] == '3');
    assert("ecdsa-p384"@[8] == '8');
    assert("ecdsa-p384"@[9] == '4');
    reveal_strlit("ecdsa-p521");
    assert("ecdsa-p521"@.len() == 10);
    assert("ecdsa-p521"@[0] == 'e');
    assert("ecdsa-p521"@[1] == 'c');
    assert("ecdsa-p521"@[2] == 'd');
    assert("ecdsa-p521"@[3] == 's');
    assert("ecdsa-p521"@[4] == 'a');
    assert("ecdsa-p521"@[5] == '-');
    assert("ecdsa-p521"@[6] == 'p');
    assert("ecdsa-p521"@[7] == '5');
    assert("ecdsa-p521"@[8] == '2');
    assert("ecdsa-p521"@[9] == '1');
    reveal_strlit("ecdsa-unattributed");
    assert("ecdsa-unattributed"@.len() == 18);
    assert("ecdsa-unattributed"@[0] == 'e');
    assert("ecdsa-unattributed"@[1] == 'c');
    assert("ecdsa-unattributed"@[2] == 'd');
    assert("ecdsa-unattributed"@[3] == 's');
    assert("ecdsa-unattributed"@[4] == 'a');
    assert("ecdsa-unattributed"@[5] == '-');
    assert("ecdsa-unattributed"@[6] == 'u');
    assert("ecdsa-unattributed"@[7] == 'n');
    assert("ecdsa-unattributed"@[8] == 'a');
    assert("ecdsa-unattributed"@[9] == 't');
    assert("ecdsa-unattributed"@[10] == 't');
    assert("ecdsa-unattributed"@[11] == 'r');
    assert("ecdsa-unattributed"@[12] == 'i');
    assert("ecdsa-unattributed"@[13] == 'b');
    assert("ecdsa-unattributed"@[14] == 'u');
    assert("ecdsa-unattributed"@[15] == 't');
    assert("ecdsa-unattributed"@[16] == 'e');
    assert("ecdsa-unattributed"@[17] == 'd');
    reveal_strlit("ecdh-p256");
    assert("ecdh-p256"@.len() == 9);
    assert("ecdh-p256"@[0] == 'e');
    assert("ecdh-p256"@[1] == 'c');
    assert("ecdh-p256"@[2] == 'd');
    assert("ecdh-p256"@[3] == 'h');
    assert("ecdh-p256"@[4] == '-');
    assert("ecdh-p256"@[5] == 'p');
    assert("ecdh-p256"@[6] == '2');
    assert("ecdh-p256"@[7] == '5');
    assert("ecdh-p256"@[8] == '6');
    reveal_strlit("ecdh-p384");
    assert("ecdh-p384"@.len() == 9);
    assert("ecdh-p384"@[0] == 'e');
    assert("ecdh-p384"@[1] == 'c');
    assert("ecdh-p384"@[2] == 'd');
    assert("ecdh-p384"@[3] == 'h');
    assert("ecdh-p384"@[4] == '-');
    assert("ecdh-p384"@[5] == 'p');
    assert("ecdh-p384"@[6] == '3');
    assert("ecdh-p384"@[7] == '8');
    assert("ecdh-p384"@[8] == '4');
    reveal_strlit("ecdh-p521");
    assert("ecdh-p521"@.len() == 9);
    assert("ecdh-p521"@[0] == 'e');
    assert("ecdh-p521"@[1] == 'c');
    assert("ecdh-p521"@[2] == 'd');
    assert("ecdh-p521"@[3] == 'h');
    assert("ecdh-p521"@[4] == '-');
    assert("ecdh-p521"@[5] == 'p');
    assert("ecdh-p521"@[6] == '5');
    assert("ecdh-p521"@[7] == '2');
    assert("ecdh-p521"@[8] == '1');
    reveal_strlit("ecdh-unattributed");
    assert("ecdh-unattributed"@.len() == 17);
    assert("ecdh-unattributed"@[0] == 'e');
    assert("ecdh-unattributed"@[1] == 'c');
    assert("ecdh-unattributed"@[2] == 'd');
    assert("ecdh-unattributed"@[3] == 'h');
    assert("ecdh-unattributed"@[4] == '-');
    assert("ecdh-unattributed"@[5] == 'u');
    assert("ecdh-unattributed"@[6] == 'n');
    assert("ecdh-unattributed"@[7] == 'a');
    assert("ecdh-unattributed"@[8] == 't');
    assert("ecdh-unattributed"@[9] == 't');
    assert("ecdh-unattributed"@[10] == 'r');
    assert("ecdh-unattributed"@[11] == 'i');
    assert("ecdh-unattributed"@[12] == 'b');
    assert("ecdh-unattributed"@[13] == 'u');
    assert("ecdh-unattributed"@[14] == 't');
    assert("ecdh-unattributed"@[15] == 'e');
    assert("ecdh-unattributed"@[16] == 'd');
    reveal_strlit("x25519");
    assert("x25519"@.len() == 6);
    assert("x25519"@[0] == 'x');
    assert("x25519"@[1] == '2');
    assert("x25519"@[2] == '5');
    assert("x25519"@[3] == '5');
    assert("x25519"@[4] == '1');
    assert("x25519"@[5] == '9');
    reveal_strlit("ed25519");
    assert("ed25519"@.len() == 7);
    assert("ed25519"@[0] == 'e');
    assert("ed25519"@[1] == 'd');
    assert("ed25519"@[2] == '2');
    assert("ed25519"@[3] == '5');
    assert("ed25519"@[4] == '5');
    assert("ed25519"@[5] == '1');
    assert("ed25519"@[6] == '9');
    reveal_strlit("aes-128-ecb");
    assert("aes-128-ecb"@.len() == 11);
    assert("aes-128-ecb"@[0] == 'a');
    assert("aes-128-ecb"@[1] == 'e');
    assert("aes-128-ecb"@[2] == 's');
    assert("aes-128-ecb"@[3] == '-');
    assert("aes-128-ecb"@[4] == '1');
    assert("aes-128-ecb"@[5] == '2');
    assert("aes-128-ecb"@[6] == '8');
    assert("aes-128-ecb"@[7] == '-');
    assert("aes-128-ecb"@[8] == 'e');
    assert("aes-128-ecb"@[9] == 'c');
    assert("aes-128-ecb"@[10] == 'b');
    reveal_strlit("aes-unattributed-ecb");
    assert("aes-unattributed-ecb"@.len() == 20);
    assert("aes-unattributed-ecb"@[0] == 'a');
    assert("aes-unattributed-ecb"@[1] == 'e');
    assert("aes-unattributed-ecb"@[2] == 's');
    assert("aes-unattributed-ecb"@[3] == '-');
    assert("aes-unattributed-ecb"@[4] == 'u');
    assert("aes-unattributed-ecb"@[5] == 'n');
    assert("aes-unattributed-ecb"@[6] == 'a');
    assert("aes-unattributed-ecb"@[7] == 't');
    assert("aes-unattributed-ecb"@[8] == 't');
    assert("aes-unattributed-ecb"@[9] == 'r');
    assert("aes-unattributed-ecb"@[10] == 'i');
    assert("aes-unattributed-ecb"@[11] == 'b');
    assert("aes-unattributed-ecb"@[12] == 'u');
    assert("aes-unattributed-ecb"@[13] == 't');
    assert("aes-unattributed-ecb"@[14] == 'e');
    assert("aes-unattributed-ecb"@[15] == 'd');
    assert("aes-unattributed-ecb"@[16] == '-');
    assert("aes-unattributed-ecb"@[17] == 'e');
    assert("aes-unattributed-ecb"@[18] == 'c');
    assert("aes-unattributed-ecb"@[19] == 'b');
    reveal_strlit("aes-128-gcm");
    assert("aes-128-gcm"@.len() == 11);
    assert("aes-128-gcm"@[0] == 'a');
    assert("aes-128-gcm"@[1] == 'e');
    assert("aes-128-gcm"@[2] == 's');
    assert("aes-128-gcm"@[3] == '-');
    assert("aes-128-gcm"@[4] == '1');
    assert("aes-128-gcm"@[5] == '2');
    assert("aes-128-gcm"@[6] == '8');
    assert("aes-128-gcm"@[7] == '-');
    assert("aes-128-gcm"@[8] == 'g');
    assert("aes-128-gcm"@[9] == 'c');
    assert("aes-128-gcm"@[10] == 'm');
    reveal_strlit("aes-256-gcm");
    assert("aes-256-gcm"@.len() == 11);
    assert("aes-256-gcm"@[0] == 'a');
    assert("aes-256-gcm"@[1] == 'e');
    assert("aes-256-gcm"@[2] == 's');
    assert("aes-256-gcm"@[3] == '-');
    assert("aes-256-gcm"@[4] == '2');
    assert("aes-256-gcm"@[5] == '5');
    assert("aes-256-gcm"@[6] == '6');
    assert("aes-256-gcm"@[7] == '-');
    assert("aes-256-gcm"@[8] == 'g');
    assert("aes-256-gcm"@[9] == 'c');
    assert("aes-256-gcm"@[10] == 'm');
    reveal_strlit("aes-unattributed");
    assert("aes-unattributed"@.len() == 16);
    assert("aes-unattributed"@[0] == 'a');
    assert("aes-unattributed"@[1] == 'e');
    assert("aes-unattributed"@[2] == 's');
    assert("aes-unattributed"@[3] == '-');
    assert("aes-unattributed"@[4] == 'u');
    assert("aes-unattributed"@[5] == 'n');
    assert("aes-unattributed"@[6] == 'a');
    assert("aes-unattributed"@[7] == 't');
    assert("aes-unattributed"@[8] == 't');
    assert("aes-unattributed"@[9] == 'r');
    assert("aes-unattributed"@[10] == 'i');
    assert("aes-unattributed"@[11] == 'b');
    assert("aes-unattributed"@[12] == 'u');
    assert("aes-unattributed"@[13] == 't');
    assert("aes-unattributed"@[14] == 'e');
    assert("aes-unattributed"@[15] == 'd');
    reveal_strlit("chacha20-poly1305");
    assert("chacha20-poly1305"@.len() == 17);
    assert("chacha20-poly1305"@[0] == 'c');
    assert("chacha20-poly1305"@[1] == 'h');
    assert("chacha20-poly1305"@[2] == 'a');
    assert("chacha20-poly1305"@[3] == 'c');
    assert("chacha20-poly1305"@[4] == 'h');
    assert("chacha20-poly1305"@[5] == 'a');
    assert("chacha20-poly1305"@[6] == '2');
    assert("chacha20-poly1305"@[7] == '0');
    assert("chacha20-poly1305"@[8] == '-');
    assert("chacha20-poly1305"@[9] == 'p');
    assert("chacha20-poly1305"@[10] == 'o');
    assert("chacha20-poly1305"@[11] == 'l');
    assert("chacha20-poly1305"@[12] == 'y');
    assert("chacha20-poly1305"@[13] == '1');
    assert("chacha20-poly1305"@[14] == '3');
    assert("chacha20-poly1305"@[15] == '0');
    assert("chacha20-poly1305"@[16] == '5');
    reveal_strlit("sha-256");
    assert("sha-256"@.len() == 7);
    assert("sha-256"@[0] == 's');
    assert("sha-256"@[1] == 'h');
    assert("sha-256"@[2] == 'a');
    assert("sha-256"@[3] == '-');
    assert("sha-256"@[4] == '2');
    assert("sha-256"@[5] == '5');
    assert("sha-256"@[6] == '6');
    reveal_strlit("sha-384");
    assert("sha-384"@.len() == 7);
    assert("sha-384"@[0] == 's');
    assert("sha-384"@[1] == 'h');
    assert("sha-384"@[2] == 'a');
    assert("sha-384"@[3] == '-');
    assert("sha-384"@[4] == '3');
    assert("sha-384"@[5] == '8');
    assert("sha-384"@[6] == '4');
    reveal_strlit("sha-512");
    assert("sha-512"@.len() == 7);
    assert("sha-512"@[0] == 's');
    assert("sha-512"@[1] == 'h');
    assert("sha-512"@[2] == 'a');
    assert("sha-512"@[3] == '-');
    assert("sha-512"@[4] == '5');
    assert("sha-512"@[5] == '1');
    assert("sha-512"@[6] == '2');
    reveal_strlit("sha3-384");
    assert("sha3-384"@.len() == 8);
    assert("sha3-384"@[0] == 's');
    assert("sha3-384"@[1] == 'h');
    assert("sha3-384"@[2] == 'a');
    assert("sha3-384"@[3] == '3');
    assert("sha3-384"@[4] == '-');
    assert("sha3-384"@[5] == '3');
    assert("sha3-384"@[6] == '8');
    assert("sha3-384"@[7] == '4');
    reveal_strlit("rsa-pkcs1-sha1");
    assert("rsa-pkcs1-sha1"@.len() == 14);
    assert("rsa-pkcs1-sha1"@[0] == 'r');
    assert("rsa-pkcs1-sha1"@[1] == 's');
    assert("rsa-pkcs1-sha1"@[2] == 'a');
    assert("rsa-pkcs1-sha1"@[3] == '-');
    assert("rsa-pkcs1-sha1"@[4] == 'p');
    assert("rsa-pkcs1-sha1"@[5] == 'k');
    assert("rsa-pkcs1-sha1"@[6] == 'c');
    assert("rsa-pkcs1-sha1"@[7] == 's');
    assert("rsa-pkcs1-sha1"@[8] == '1');
    assert("rsa-pkcs1-sha1"@[9] == '-');
    assert("rsa-pkcs1-sha1"@[10] == 's');
    assert("rsa-pkcs1-sha1"@[11] == 'h');
    assert("rsa-pkcs1-sha1"@[12] == 'a');
    assert("rsa-pkcs1-sha1"@[13] == '1');
    reveal_strlit("rsa-pkcs1-sha256");
    assert("rsa-pkcs1-sha256"@.len() == 16);
    assert("rsa-pkcs1-sha256"@[0] == 'r');
    assert("rsa-pkcs1-sha256"@[1] == 's');
    assert("rsa-pkcs1-sha256"@[2] == 'a');
    assert("rsa-pkcs1-sha256"@[3] == '-');
    assert("rsa-pkcs1-sha256"@[4] == 'p');
    assert("rsa-pkcs1-sha256"@[5] == 'k');
    assert("rsa-pkcs1-sha256"@[6] == 'c');
    assert("rsa-pkcs1-sha256"@[7] == 's');
    assert("rsa-pkcs1-sha256"@[8] == '1');
    assert("rsa-pkcs1-sha256"@[9] == '-');
    assert("rsa-pkcs1-sha256"@[10] == 's');
    assert("rsa-pkcs1-sha256"@[11] == 'h');
    assert("rsa-pkcs1-sha256"@[12] == 'a');
    assert("rsa-pkcs1-sha256"@[13] == '2');
    assert("rsa-pkcs1-sha256"@[14] == '5');
    assert("rsa-pkcs1-sha256"@[15] == '6');
    reveal_strlit("rsa-pkcs1-sha384");
    assert("rsa-pkcs1-sha384"@.len() == 16);
    assert("rsa-pkcs1-sha384"@[0] == 'r');
    assert("rsa-pkcs1-sha384"@[1] == 's');
    assert("rsa-pkcs1-sha384"@[2] == 'a');
    assert("rsa-pkcs1-sha384"@[3] == '-');
    assert("rsa-pkcs1-sha384"@[4] == 'p');
    assert("rsa-pkcs1-sha384"@[5] == 'k');
    assert("rsa-pkcs1-sha384"@[6] == 'c');
    assert("rsa-pkcs1-sha384"@[7] == 's');
    assert("rsa-pkcs1-sha384"@[8] == '1');
    assert("rsa-pkcs1-sha384"@[9] == '-');
    assert("rsa-pkcs1-sha384"@[10] == 's');
    assert("rsa-pkcs1-sha384"@[11] == 'h');
    assert("rsa-pkcs1-sha384"@[12] == 'a');
    assert("rsa-pkcs1-sha384"@[13] == '3');
    assert("rsa-pkcs1-sha384"@[14] == '8');
    assert("rsa-pkcs1-sha384"@[15] == '4');
    reveal_strlit("rsa-pkcs1-sha512");
    assert("rsa-pkcs1-sha512"@.len() == 16);
    assert("rsa-pkcs1-sha512"@[0] == 'r');
    assert("rsa-pkcs1-sha512"@[1] == 's');
    assert("rsa-pkcs1-sha512"@[2] == 'a');
    assert("rsa-pkcs1-sha512"@[3] == '-');
    assert("rsa-pkcs1-sha512"@[4] == 'p');
    assert("rsa-pkcs1-sha512"@[5] == 'k');
    assert("rsa-pkcs1-sha512"@[6] == 'c');
    assert("rsa-pkcs1-sha512"@[7] == 's');
    assert("rsa-pkcs1-sha512"@[8] == '1');
    assert("rsa-pkcs1-sha512"@[9] == '-');
    assert("rsa-pkcs1-sha512"@[10] == 's');
    assert("rsa-pkcs1-sha512"@[11] == 'h');
    assert("rsa-pkcs1-sha512"@[12] == 'a');
    assert("rsa-pkcs1-sha512"@[13] == '5');
    assert("rsa-pkcs1-sha512"@[14] == '1');
    assert("rsa-pkcs1-sha512"@[15] == '2');
    reveal_strlit("tls-unattributed");
    assert("tls-unattributed"@.len() == 16);
    assert("tls-unattributed"@[0] == 't');
    assert("tls-unattributed"@[1] == 'l');
    assert("tls-unattributed"@[2] == 's');
    assert("tls-unattributed"@[3] == '-');
    assert("tls-unattributed"@[4] == 'u');
    assert("tls-unattributed"@[5] == 'n');
    assert("tls-unattributed"@[6] == 'a');
    assert("tls-unattributed"@[7] == 't');
    assert("tls-unattributed"@[8] == 't');
    assert("tls-unattributed"@[9] == 'r');
    assert("tls-unattributed"@[10] == 'i');
    assert("tls-unattributed"@[11] == 'b');
    assert("tls-unattributed"@[12] == 'u');
    assert("tls-unattributed"@[13] == 't');
    assert("tls-unattributed"@[14] == 'e');
    assert("tls-unattributed"@[15] == 'd');
    reveal_strlit("x25519-mlkem768");
    assert("x25519-mlkem768"@.len() == 15);
    assert("x25519-mlkem768"@[0] == 'x');
    assert("x25519-mlkem768"@[1] == '2');
    assert("x25519-mlkem768"@[2] == '5');
    assert("x25519-mlkem768"@[3] == '5');
    assert("x25519-mlkem768"@[4] == '1');
    assert("x25519-mlkem768"@[5] == '9');
    assert("x25519-mlkem768"@[6] == '-');
    assert("x25519-mlkem768"@[7] == 'm');
    assert("x25519-mlkem768"@[8] == 'l');
    assert("x25519-mlkem768"@[9] == 'k');
    assert("x25519-mlkem768"@[10] == 'e');
    assert("x25519-mlkem768"@[11] == 'm');
    assert("x25519-mlkem768"@[12] == '7');
    assert("x25519-mlkem768"@[13] == '6');
    assert("x25519-mlkem768"@[14] == '8');
    reveal_strlit("secp256r1-mlkem768");
    assert("secp256r1-mlkem768"@.len() == 18);
    assert("secp256r1-mlkem768"@[0] == 's');
    assert("secp256r1-mlkem768"@[1] == 'e');
    assert("secp256r1-mlkem768"@[2] == 'c');
    assert("secp256r1-mlkem768"@[3] == 'p');
    assert("secp256r1-mlkem768"@[4] == '2');
    assert("secp256r1-mlkem768"@[5] == '5');
    assert("secp256r1-mlkem768"@[6] == '6');
    assert("secp256r1-mlkem768"@[7] == 'r');
    assert("secp256r1-mlkem768"@[8] == '1');
    assert("secp256r1-mlkem768"@[9] == '-');
    assert("secp256r1-mlkem768"@[10] == 'm');
    assert("secp256r1-mlkem768"@[11] == 'l');
    assert("secp256r1-mlkem768"@[12] == 'k');
    assert("secp256r1-mlkem768"@[13] == 'e');
    assert("secp256r1-mlkem768"@[14] == 'm');
    assert("secp256r1-mlkem768"@[15] == '7');
    assert("secp256r1-mlkem768"@[16] == '6');
    assert("secp256r1-mlkem768"@[17] == '8');
    reveal_strlit("x-wing");
    assert("x-wing"@.len() == 6);
    assert("x-wing"@[0] == 'x');
    assert("x-wing"@[1] == '-');
    assert("x-wing"@[2] == 'w');
    assert("x-wing"@[3] == 'i');
    assert("x-wing"@[4] == 'n');
    assert("x-wing"@[5] == 'g');
    reveal_strlit("kem-unattributed");
    assert("kem-unattributed"@.len() == 16);
    assert("kem-unattributed"@[0] == 'k');
    assert("kem-unattributed"@[1] == 'e');
    assert("kem-unattributed"@[2] == 'm');
    assert("kem-unattributed"@[3] == '-');
    assert("kem-unattributed"@[4] == 'u');
    assert("kem-unattributed"@[5] == 'n');
    assert("kem-unattributed"@[6] == 'a');
    assert("kem-unattributed"@[7] == 't');
    assert("kem-unattributed"@[8] == 't');
    assert("kem-unattributed"@[9] == 'r');
    assert("kem-unattributed"@[10] == 'i');
    assert("kem-unattributed"@[11] == 'b');
    assert("kem-unattributed"@[12] == 'u');
    assert("kem-unattributed"@[13] == 't');
    assert("kem-unattributed"@[14] == 'e');
    assert("kem-unattributed"@[15] == 'd');
    reveal_strlit("ml-kem-512");
    assert("ml-kem-512"@.len() == 10);
    assert("ml-kem-512"@[0] == 'm');
    assert("ml-kem-512"@[1] == 'l');
    assert("ml-kem-512"@[2] == '-');
    assert("ml-kem-512"@[3] == 'k');
    assert("ml-kem-512"@[4] == 'e');
    assert("ml-kem-512"@[5] == 'm');
    assert("ml-kem-512"@[6] == '-');
    assert("ml-kem-512"@[7] == '5');
    assert("ml-kem-512"@[8] == '1');
    assert("ml-kem-512"@[9] == '2');
    reveal_strlit("ml-kem-768");
    assert("ml-kem-768"@.len() == 10);
    assert("ml-kem-768"@[0] == 'm');
    assert("ml-kem-768"@[1] == 'l');
    assert("ml-kem-768"@[2] == '-');
    assert("ml-kem-768"@[3] == 'k');
    assert("ml-kem-768"@[4] == 'e');
    assert("ml-kem-768"@[5] == 'm');
    assert("ml-kem-768"@[6] == '-');
    assert("ml-kem-768"@[7] == '7');
    assert("ml-kem-768"@[8] == '6');
    assert("ml-kem-768"@[9] == '8');
    reveal_strlit("ml-kem-1024");
    assert("ml-kem-1024"@.len() == 11);
    assert("ml-kem-1024"@[0] == 'm');
    assert("ml-kem-1024"@[1] == 'l');
    assert("ml-kem-1024"@[2] == '-');
    assert("ml-kem-1024"@[3] == 'k');
    assert("ml-kem-1024"@[4] == 'e');
    assert("ml-kem-1024"@[5] == 'm');
    assert("ml-kem-1024"@[6] == '-');
    assert("ml-kem-1024"@[7] == '1');
    assert("ml-kem-1024"@[8] == '0');
    assert("ml-kem-1024"@[9] == '2');
    assert("ml-kem-1024"@[10] == '4');
    reveal_strlit("ml-dsa-44");
    assert("ml-dsa-44"@.len() == 9);
    assert("ml-dsa-44"@[0] == 'm');
    assert("ml-dsa-44"@[1] == 'l');
    assert("ml-dsa-44"@[2] == '-');
    assert("ml-dsa-44"@[3] == 'd');
    assert("ml-dsa-44"@[4] == 's');
    assert("ml-dsa-44"@[5] == 'a');
    assert("ml-dsa-44"@[6] == '-');
    assert("ml-dsa-44"@[7] == '4');
    assert("ml-dsa-44"@[8] == '4');
    reveal_strlit("ml-dsa-65");
    assert("ml-dsa-65"@.len() == 9);
    assert("ml-dsa-65"@[0] == 'm');
    assert("ml-dsa-65"@[1] == 'l');
    assert("ml-dsa-65"@[2] == '-');
    assert("ml-dsa-65"@[3] == 'd');
    assert("ml-dsa-65"@[4] == 's');
    assert("ml-dsa-65"@[5] == 'a');
    assert("ml-dsa-65"@[6] == '-');
    assert("ml-dsa-65"@[7] == '6');
    assert("ml-dsa-65"@[8] == '5');
    reveal_strlit("ml-dsa-87");
    assert("ml-dsa-87"@.len() == 9);
    assert("ml-dsa-87"@[0] == 'm');
    assert("ml-dsa-87"@[1] == 'l');
    assert("ml-dsa-87"@[2] == '-');
    assert("ml-dsa-87"@[3] == 'd');
    assert("ml-dsa-87"@[4] == 's');
    assert("ml-dsa-87"@[5] == 'a');
    assert("ml-dsa-87"@[6] == '-');
    assert("ml-dsa-87"@[7] == '8');
    assert("ml-dsa-87"@[8] == '7');
    reveal_strlit("fn-dsa-512");
    assert("fn-dsa-512"@.len() == 10);
    assert("fn-dsa-512"@[0] == 'f');
    assert("fn-dsa-512"@[1] == 'n');
    assert("fn-dsa-512"@[2] == '-');
    assert("fn-dsa-512"@[3] == 'd');
    assert("fn-dsa-512"@[4] == 's');
    assert("fn-dsa-512"@[5] == 'a');
    assert("fn-dsa-512"@[6] == '-');
    assert("fn-dsa-512"@[7] == '5');
    assert("fn-dsa-512"@[8] == '1');
    assert("fn-dsa-512"@[9] == '2');
    reveal_strlit("slh-dsa-sha2-128s");
    assert("slh-dsa-sha2-128s"@.len() == 17);
    assert("slh-dsa-sha2-128s"@[0] == 's');
    assert("slh-dsa-sha2-128s"@[1] == 'l');
    assert("slh-dsa-sha2-128s"@[2] == 'h');
    assert("slh-dsa-sha2-128s"@[3] == '-');
    assert("slh-dsa-sha2-128s"@[4] == 'd');
    assert("slh-dsa-sha2-128s"@[5] == 's');
    assert("slh-dsa-sha2-128s"@[6] == 'a');
    assert("slh-dsa-sha2-128s"@[7] == '-');
    assert("slh-dsa-sha2-128s"@[8] == 's');
    assert("slh-dsa-sha2-128s"@[9] == 'h');
    assert("slh-dsa-sha2-128s"@[10] == 'a');
    assert("slh-dsa-sha2-128s"@[11] == '2');
    assert("slh-dsa-sha2-128s"@[12] == '-');
    assert("slh-dsa-sha2-128s"@[13] == '1');
    assert("slh-dsa-sha2-128s"@[14] == '2');
    assert("slh-dsa-sha2-128s"@[15] == '8');
    assert("slh-dsa-sha2-128s"@[16] == 's');
    assert(ids[0] == "md5"@);
    assert(ids[1] == "sha-1"@);
    assert(ids[2] == "des"@);
    assert(ids[3] == "3des"@);
    assert(ids[4] == "rc4"@);
    assert(ids[5] == "jwt-alg-none"@);
    assert(ids[6] == "weak-cipher-suite"@);
    assert(ids[7] == "rsa-undersized"@);
    assert(ids[8] == "rsa-2048"@);
    assert(ids[9] == "rsa-3072"@);
    assert(ids[10] == "rsa-4096"@);
    assert(ids[11] == "rsa-unattributed"@);
    assert(ids[12] == "ecdsa-p256"@);
    assert(ids[13] == "ecdsa-p384"@);
    assert(ids[14] == "ecdsa-p521"@);
    assert(ids[15] == "ecdsa-unattributed"@);
    assert(ids[16] == "ecdh-p256"@);
    assert(ids[17] == "ecdh-p384"@);
    assert(ids[18] == "ecdh-p521"@);
    assert(ids[19] == "ecdh-unattributed"@);
    assert(ids[20] == "x25519"@);
    assert(ids[21] == "ed25519"@);
    assert(ids[22] == "aes-128-ecb"@);
    assert(ids[23] == "aes-unattributed-ecb"@);
    assert(ids[24] == "aes-128-gcm"@);
    assert(ids[25] == "aes-256-gcm"@);
    assert(ids[26] == "aes-unattributed"@);
    assert(ids[27] == "chacha20-poly1305"@);
    assert(ids[28] == "sha-256"@);
    assert(ids[29] == "sha-384"@);
    assert(ids[30] == "sha-512"@);
    assert(ids[31] == "sha3-384"@);
    assert(ids[32] == "rsa-pkcs1-sha1"@);
    assert(ids[33] == "rsa-pkcs1-sha256"@);
    assert(ids[34] == "rsa-pkcs1-sha384"@);
    assert(ids[35] == "rsa-pkcs1-sha512"@);
    assert(ids[36] == "tls-unattributed"@);
    assert(ids[37] == "x25519-mlkem768"@);
    assert(ids[38] == "secp256r1-mlkem768"@);
    assert(ids[39] == "x-wing"@);
    assert(ids[40] == "kem-unattributed"@);
    assert(ids[41] == "ml-kem-512"@);
    assert(ids[42] == "ml-kem-768"@);
    assert(ids[43] == "ml-kem-1024"@);
    assert(ids[44] == "ml-dsa-44"@);
    assert(ids[45] == "ml-dsa-65"@);
    assert(ids[46] == "ml-dsa-87"@);
    assert(ids[47] == "fn-dsa-512"@);
    assert(ids[48] == "slh-dsa-sha2-128s"@);
}

/// No OID of the built-in OID table is listed twice.
pub proof fn lemma_builtin_oids_distinct()
    ensures
        builtin_oids_distinct(),
{
    let rows = builtin_oid_rows();
    assert(rows.len() == 14);
    reveal_strlit("1.2.840.113549.1.1.1");
    assert("1.2.840.113549.1.1.1"@.len() == 20);
    assert("1.2.840.113549.1.1.1"@[0] == '1');
    assert("1.2.840.113549.1.1.1"@[1] == '.');
    assert("1.2.840.113549.1.1.1"@[2] == '2');
    assert("1.2.840.113549.1.1.1"@[3] == '.');
    assert("1.2.840.113549.1.1.1"@[4] == '8');
    assert("1.2.840.113549.1.1.1"@[5] == '4');
    assert("1.2.840.113549.1.1.1"@[6] == '0');
    assert("1.2.840.113549.1.1.1"@[7] == '.');
    assert("1.2.840.113549.1.1.1"@[8] == '1');
    assert("1.2.840.113549.1.1.1"@[9] == '1');
    assert("1.2.840.113549.1.1.1"@[10] == '3');
    assert("1.2.840.113549.1.1.1"@[11] == '5');
    assert("1.2.840.113549.1.1.1"@[12] == '4');
    assert("1.2.840.113549.1.1.1"@[13] == '9');
    assert("1.2.840.113549.1.1.1"@[14] == '.');
    assert("1.2.840.113549.1.1.1"@[15] == '1');
    assert("1.2.840.113549.1.1.1"@[16] == '.');
    assert("1.2.840.113549.1.1.1"@[17] == '1');
    assert("1.2.840.113549.1.1.1"@[18] == '.');
    assert("1.2.840.113549.1.1.1"@[19] == '1');
    reveal_strlit("1.2.840.10045.2.1");
    assert("1.2.840.10045.2.1"@.len() == 17);
    assert("1.2.840.10045.2.1"@[0] == '1');
    assert("1.2.840.10045.2.1"@[1] == '.');
    assert("1.2.840.10045.2.1"@[2] == '2');
    assert("1.2.840.10045.2.1"@[3] == '.');
    assert("1.2.840.10045.2.1"@[4] == '8');
    assert("1.2.840.10045.2.1"@[5] == '4');
    assert("1.2.840.10045.2.1"@[6] == '0');
    assert("1.2.840.10045.2.1"@[7] == '.');
    assert("1.2.840.10045.2.1"@[8] == '1');
    assert("1.2.840.10045.2.1"@[9] == '0');
    assert("1.2.840.10045.2.1"@[10] == '0');
    assert("1.2.840.10045.2.1"@[11] == '4');
    assert("1.2.840.10045.2.1"@[12] == '5');
    assert("1.2.840.10045.2.1"@[13] == '.');
    assert("1.2.840.10045.2.1"@[14] == '2');
    assert("1.2.840.10045.2.1"@[15] == '.');
    assert("1.2.840.10045.2.1"@[16] == '1');
    reveal_strlit("1.2.840.10045.3.1.7");
    assert("1.2.840.10045.3.1.7"@.len() == 19);
    assert("1.2.840.10045.3.1.7"@[0] == '1');
    assert("1.2.840.10045.3.1.7"@[1] == '.');
    assert("1.2.840.10045.3.1.7"@[2] == '2');
    assert("1.2.840.10045.3.1.7"@[3] == '.');
    assert("1.2.840.10045.3.1.7"@[4] == '8');
    assert("1.2.840.10045.3.1.7"@[5] == '4');
    assert("1.2.840.10045.3.1.7"@[6] == '0');
    assert("1.2.840.10045.3.1.7"@[7] == '.');
    assert("1.2.840.10045.3.1.7"@[8] == '1');
    assert("1.2.840.10045.3.1.7"@[9] == '0');
    assert("1.2.840.10045.3.1.7"@[10] == '0');
    assert("1.2.840.10045.3.1.7"@[11] == '4');
    assert("1.2.840.10045.3.1.7"@[12] == '5');
    assert("1.2.840.10045.3.1.7"@[13] == '.');
    assert("1.2.840.10045.3.1.7"@[14] == '3');
    assert("1.2.840.10045.3.1.7"@[15] == '.');
    assert("1.2.840.10045.3.1.7"@[16] == '1');
    assert("1.2.840.10045.3.1.7"@[17] == '.');
    assert("1.2.840.10045.3.1.7"@[18] == '7');
    reveal_strlit("1.3.132.0.34");
    assert("1.3.132.0.34"@.len() == 12);
    assert("1.3.132.0.34"@[0] == '1');
    assert("1.3.132.0.34"@[1] == '.');
    assert("1.3.132.0.34"@[2] == '3');
    assert("1.3.132.0.34"@[3] == '.');
    assert("1.3.132.0.34"@[4] == '1');
    assert("1.3.132.0.34"@[5] == '3');
    assert("1.3.132.0.34"@[6] == '2');
    assert("1.3.132.0.34"@[7] == '.');
    assert("1.3.132.0.34"@[8] == '0');
    assert("1.3.132.0.34"@[9] == '.');
    assert("1.3.132.0.34"@[10] == '3');
    assert("1.3.132.0.34"@[11] == '4');
    reveal_strlit("1.3.132.0.35");
    assert("1.3.132.0.35"@.len() == 12);
    assert("1.3.132.0.35"@[0] == '1');
    assert("1.3.132.0.35"@[1] == '.');
    assert("1.3.132.0.35"@[2] == '3');
    assert("1.3.132.0.35"@[3] == '.');
    assert("1.3.132.0.35"@[4] == '1');
    assert("1.3.132.0.35"@[5] == '3');
    assert("1.3.132.0.35"@[6] == '2');
    assert("1.3.132.0.35"@[7] == '.');
    assert("1.3.132.0.35"@[8] == '0');
    assert("1.3.132.0.35"@[9] == '.');
    assert("1.3.132.0.35"@[10] == '3');
    assert("1.3.132.0.35"@[11] == '5');
    reveal_strlit("1.3.101.110");
    assert("1.3.101.110"@.len() == 11);
    assert("1.3.101.110"@[0] == '1');
    assert("1.3.101.110"@[1] == '.');
    assert("1.3.101.110"@[2] == '3');
    assert("1.3.101.110"@[3] == '.');
    assert("1.3.101.110"@[4] == '1');
    assert("1.3.101.110"@[5] == '0');
    assert("1.3.101.110"@[6] == '1');
    assert("1.3.101.110"@[7] == '.');
    assert("1.3.101.110"@[8] == '1');
    assert("1.3.101.110"@[9] == '1');
    assert("1.3.101.110"@[10] == '0');
    reveal_strlit("1.3.101.112");
    assert("1.3.101.112"@.len() == 11);
    assert("1.3.101.112"@[0] == '1');
    assert("1.3.101.112"@[1] == '.');
    assert("1.3.101.112"@[2] == '3');
    assert("1.3.101.112"@[3] == '.');
    assert("1.3.101.112"@[4] == '1');
    assert("1.3.101.112"@[5] == '0');
    assert("1.3.101.112"@[6] == '1');
    assert("1.3.101.112"@[7] == '.');
    assert("1.3.101.112"@[8] == '1');
    assert("1.3.101.112"@[9] == '1');
    assert("1.3.101.112"@[10] == '2');
    reveal_strlit("1.2.840.113549.2.5");
    assert("1.2.840.113549.2.5"@.len() == 18);
    assert("1.2.840.113549.2.5"@[0] == '1');
    assert("1.2.840.113549.2.5"@[1] == '.');
    assert("1.2.840.113549.2.5"@[2] == '2');
    assert("1.2.840.113549.2.5"@[3] == '.');
    assert("1.2.840.113549.2.5"@[4] == '8');
    assert("1.2.840.113549.2.5"@[5] == '4');
    assert("1.2.840.113549.2.5"@[6] == '0');
    assert("1.2.840.113549.2.5"@[7] == '.');
    assert("1.2.840.113549.2.5"@[8] == '1');
    assert("1.2.840.113549.2.5"@[9] == '1');
    assert("1.2.840.113549.2.5"@[10] == '3');
    assert("1.2.840.113549.2.5"@[11] == '5');
    assert("1.2.840.113549.2.5"@[12] == '4');
    assert("1.2.840.113549.2.5"@[13] == '9');
    assert("1.2.840.113549.2.5"@[14] == '.');
    assert("1.2.840.113549.2.5"@[15] == '2');
    assert("1.2.840.113549.2.5"@[16] == '.');
    assert("1.2.840.113549.2.5"@[17] == '5');
    reveal_strlit("1.3.14.3.2.26");
    assert("1.3.14.3.2.26"@.len() == 13);
    assert("1.3.14.3.2.26"@[0] == '1');
    assert("1.3.14.3.2.26"@[1] == '.');
    assert("1.3.14.3.2.26"@[2] == '3');
    assert("1.3.14.3.2.26"@[3] == '.');
    assert("1.3.14.3.2.26"@[4] == '1');
    assert("1.3.14.3.2.26"@[5] == '4');
    assert("1.3.14.3.2.26"@[6] == '.');
    assert("1.3.14.3.2.26"@[7] == '3');
    assert("1.3.14.3.2.26"@[8] == '.');
    assert("1.3.14.3.2.26"@[9] == '2');
    assert("1.3.14.3.2.26"@[10] == '.');
    assert("1.3.14.3.2.26"@[11] == '2');
    assert("1.3.14.3.2.26"@[12] == '6');
    reveal_strlit("2.16.840.1.101.3.4.2.1");
    assert("2.16.840.1.101.3.4.2.1"@.len() == 22);
    assert("2.16.840.1.101.3.4.2.1"@[0] == '2');
    assert("2.16.840.1.101.3.4.2.1"@[1] == '.');
    assert("2.16.840.1.101.3.4.2.1"@[2] == '1');
    assert("2.16.840.1.101.3.4.2.1"@[3] == '6');
    assert("2.16.840.1.101.3.4.2.1"@[4] == '.');
    assert("2.16.840.1.101.3.4.2.1"@[5] == '8');
    assert("2.16.840.1.101.3.4.2.1"@[6] == '4');
    assert("2.16.840.1.101.3.4.2.1"@[7] == '0');
    assert("2.16.840.1.101.3.4.2.1"@[8] == '.');
    assert("2.16.840.1.101.3.4.2.1"@[9] == '1');
    assert("2.16.840.1.101.3.4.2.1"@[10] == '.');
    assert("2.16.840.1.101.3.4.2.1"@[11] == '1');
    assert("2.16.840.1.101.3.4.2.1"@[12] == '0');
    assert("2.16.840.1.101.3.4.2.1"@[13] == '1');
    assert("2.16.840.1.101.3.4.2.1"@[14] == '.');
    assert("2.16.840.1.101.3.4.2.1"@[15] == '3');
    assert("2.16.840.1.101.3.4.2.1"@[16] == '.');
    assert("2.16.840.1.101.3.4.2.1"@[17] == '4');
    assert("2.16.840.1.101.3.4.2.1"@[18] == '.');
    assert("2.16.840.1.101.3.4.2.1"@[19] == '2');
    assert("2.16.840.1.101.3.4.2.1"@[20] == '.');
    assert("2.16.840.1.101.3.4.2.1"@[21] == '1');
    reveal_strlit("2.16.840.1.101.3.4.2.2");
    assert("2.16.840.1.101.3.4.2.2"@.len() == 22);
    assert("2.16.840.1.101.3.4.2.2"@[0] == '2');
    assert("2.16.840.1.101.3.4.2.2"@[1] == '.');
    assert("2.16.840.1.101.3.4.2.2"@[2] == '1');
    assert("2.16.840.1.101.3.4.2.2"@[3] == '6');
    assert("2.16.840.1.101.3.4.2.2"@[4] == '.');
    assert("2.16.840.1.101.3.4.2.2"@[5] == '8');
    assert("2.16.840.1.101.3.4.2.2"@[6] == '4');
    assert("2.16.840.1.101.3.4.2.2"@[7] == '0');
    assert("2.16.840.1.101.3.4.2.2"@[8] == '.');
    assert("2.16.840.1.101.3.4.2.2"@[9] == '1');
    assert("2.16.840.1.101.3.4.2.2"@[10] == '.');
    assert("2.16.840.1.101.3.4.2.2"@[11] == '1');
    assert("2.16.840.1.101.3.4.2.2"@[12] == '0');
    assert("2.16.840.1.101.3.4.2.2"@[13] == '1');
    assert("2.16.840.1.101.3.4.2.2"@[14] == '.');
    assert("2.16.840.1.101.3.4.2.2"@[15] == '3');
    assert("2.16.840.1.101.3.4.2.2"@[16] == '.');
    assert("2.16.840.1.101.3.4.2.2"@[17] == '4');
    assert("2.16.840.1.101.3.4.2.2"@[18] == '.');
    assert("2.16.840.1.101.3.4.2.2"@[19] == '2');
    assert("2.16.840.1.101.3.4.2.2"@[20] == '.');
    assert("2.16.840.1.101.3.4.2.2"@[21] == '2');
    reveal_strlit("2.16.840.1.101.3.4.2.3");
    assert("2.16.840.1.101.3.4.2.3"@.len() == 22);
    assert("2.16.840.1.101.3.4.2.3"@[0] == '2');
    assert("2.16.840.1.101.3.4.2.3"@[1] == '.');
    assert("2.16.840.1.101.3.4.2.3"@[2] == '1');
    assert("2.16.840.1.101.3.4.2.3"@[3] == '6');
    assert("2.16.840.1.101.3.4.2.3"@[4] == '.');
    assert("2.16.840.1.101.3.4.2.3"@[5] == '8');
    assert("2.16.840.1.101.3.4.2.3"@[6] == '4');
    assert("2.16.840.1.101.3.4.2.3"@[7] == '0');
    assert("2.16.840.1.101.3.4.2.3"@[8] == '.');
    assert("2.16.840.1.101.3.4.2.3"@[9] == '1');
    assert("2.16.840.1.101.3.4.2.3"@[10] == '.');
    assert("2.16.840.1.101.3.4.2.3"@[11] == '1');
    assert("2.16.840.1.101.3.4.2.3"@[12] == '0');
    assert("2.16.840.1.101.3.4.2.3"@[13] == '1');
    assert("2.16.840.1.101.3.4.2.3"@[14] == '.');
    assert("2.16.840.1.101.3.4.2.3"@[15] == '3');
    assert("2.16.840.1.101.3.4.2.3"@[16] == '.');
    assert("2.16.840.1.101.3.4.2.3"@[17] == '4');
    assert("2.16.840.1.101.3.4.2.3"@[18] == '.');
    assert("2.16.840.1.101.3.4.2.3"@[19] == '2');
    assert("2.16.840.1.101.3.4.2.3"@[20] == '.');
    assert("2.16.840.1.101.3.4.2.3"@[21] == '3');
    reveal_strlit("2.16.840.1.101.3.4.4.2");
    assert("2.16.840.1.101.3.4.4.2"@.len() == 22);
    assert("2.16.840.1.101.3.4.4.2"@[0] == '2');
    assert("2.16.840.1.101.3.4.4.2"@[1] == '.');
    assert("2.16.840.1.101.3.4.4.2"@[2] == '1');
    assert("2.16.840.1.101.3.4.4.2"@[3] == '6');
    assert("2.16.840.1.101.3.4.4.2"@[4] == '.');
    assert("2.16.840.1.101.3.4.4.2"@[5] == '8');
    assert("2.16.840.1.101.3.4.4.2"@[6] == '4');
    assert("2.16.840.1.101.3.4.4.2"@[7] == '0');
    assert("2.16.840.1.101.3.4.4.2"@[8] == '.');
    assert("2.16.840.1.101.3.4.4.2"@[9] == '1');
    assert("2.16.840.1.101.3.4.4.2"@[10] == '.');
    assert("2.16.840.1.101.3.4.4.2"@[11] == '1');
    assert("2.16.840.1.101.3.4.4.2"@[12] == '0');
    assert("2.16.840.1.101.3.4.4.2"@[13] == '1');
    assert("2.16.840.1.101.3.4.4.2"@[14] == '.');
    assert("2.16.840.1.101.3.4.4.2"@[15] == '3');
    assert("2.16.840.1.101.3.4.4.2"@[16] == '.');
    assert("2.16.840.1.101.3.4.4.2"@[17] == '4');
    assert("2.16.840.1.101.3.4.4.2"@[18] == '.');
    assert("2.16.840.1.101.3.4.4.2"@[19] == '4');
    assert("2.16.840.1.101.3.4.4.2"@[20] == '.');
    assert("2.16.840.1.101.3.4.4.2"@[21] == '2');
    reveal_strlit("2.16.840.1.101.3.4.3.18");
    assert("2.16.840.1.101.3.4.3.18"@.len() == 23);
    assert("2.16.840.1.101.3.4.3.18"@[0] == '2');
    assert("2.16.840.1.101.3.4.3.18"@[1] == '.');
    assert("2.16.840.1.101.3.4.3.18"@[2] == '1');
    assert("2.16.840.1.101.3.4.3.18"@[3] == '6');
    assert("2.16.840.1.101.3.4.3.18"@[4] == '.');
    assert("2.16.840.1.101.3.4.3.18"@[5] == '8');
    assert("2.16.840.1.101.3.4.3.18"@[6] == '4');
    assert("2.16.840.1.101.3.4.3.18"@[7] == '0');
    assert("2.16.840.1.101.3.4.3.18"@[8] == '.');
    assert("2.16.840.1.101.3.4.3.18"@[9] == '1');
    assert("2.16.840.1.101.3.4.3.18"@[10] == '.');
    assert("2.16.840.1.101.3.4.3.18"@[11] == '1');
    assert("2.16.840.1.101.3.4.3.18"@[12] == '0');
    assert("2.16.840.1.101.3.4.3.18"@[13] == '1');
    assert("2.16.840.1.101.3.4.3.18"@[14] == '.');
    assert("2.16.840.1.101.3.4.3.18"@[15] == '3');
    assert("2.16.840.1.101.3.4.3.18"@[16] == '.');
    assert("2.16.840.1.101.3.4.3.18"@[17] == '4');
    assert("2.16.840.1.101.3.4.3.18"@[18] == '.');
    assert("2.16.840.1.101.3.4.3.18"@[19] == '3');
    assert("2.16.840.1.101.3.4.3.18"@[20] == '.');
    assert("2.16.840.1.101.3.4.3.18"@[21] == '1');
    assert("2.16.840.1.101.3.4.3.18"@[22] == '8');
    assert(rows[0].0 == "1.2.840.113549.1.1.1"@);
    assert(rows[1].0 == "1.2.840.10045.2.1"@);
    assert(rows[2].0 == "1.2.840.10045.3.1.7"@);
    assert(rows[3].0 == "1.3.132.0.34"@);
    assert(rows[4].0 == "1.3.132.0.35"@);
    assert(rows[5].0 == "1.3.101.110"@);
    assert(rows[6].0 == "1.3.101.112"@);
    assert(rows[7].0 == "1.2.840.113549.2.5"@);
    assert(rows[8].0 == "1.3.14.3.2.26"@);
    assert(rows[9].0 == "2.16.840.1.101.3.4.2.1"@);
    assert(rows[10].0 == "2.16.840.1.101.3.4.2.2"@);
    assert(rows[11].0 == "2.16.840.1.101.3.4.2.3"@);
    assert(rows[12].0 == "2.16.840.1.101.3.4.4.2"@);
    assert(rows[13].0 == "2.16.840.1.101.3.4.3.18"@);
}

/// The built-in data loads: every table [`load_builtins`] reads is
/// consistent, so it returns `Ok`.
pub proof fn lemma_builtins_load()
    ensures
        ids_distinct(builtin_ids()),
        builtin_oids_distinct(),
{
    lemma_builtin_ids_distinct();
    lemma_builtin_oids_distinct();
}

} // verus!
