//! The algorithm table: the canonical algorithm-ids findings, rules, OIDs
//! and policies refer to, each with its quantum status.
use vstd::prelude::*;
use crate::text::{owned, str_eq};

verus! {

/// How an algorithm stands against classical and quantum attack.
#[derive(Debug, Clone, Copy, PartialEq, Eq, Hash, Structural)]
pub enum QuantumStatus {
    /// Broken without a quantum computer (MD5, DES, RC4).
    BrokenClassically,
    /// Broken by Shor's algorithm (RSA, ECC, DH).
    BrokenByShor,
    /// Security margin halved by Grover's algorithm (AES-128, SHA-256).
    WeakenedByGrover,
    /// Not materially affected by known quantum attacks.
    QuantumSafe,
    /// A finalised post-quantum standard.
    PqcFinal,
    /// A post-quantum draft.
    PqcDraft,
}

/// One row of the algorithm table.
#[derive(Debug, Clone)]
pub struct AlgorithmRecord {
    /// Canonical algorithm-id.
    pub id: String,
    /// Quantum status of the algorithm.
    pub quantum_status: QuantumStatus,
    /// Human-readable name.
    pub display_name: String,
    /// Catalogue note, shown verbatim.
    pub notes: String,
    /// The FIPS publication that standardises it, if one does.
    pub fips: Option<String>,
    /// The algorithm-id of the recommended replacement, if there is one.
    pub replacement: Option<String>,
    /// The object identifier, if the algorithm has one.
    pub oid: Option<String>,
}

/// What an algorithm record holds besides its notes, replacement and OID:
/// id, quantum status, display name, FIPS publication.
pub open spec fn record_summary(r: AlgorithmRecord) -> (Seq<char>, QuantumStatus, Seq<char>, Option<Seq<char>>) {
    (r.id@, r.quantum_status, r.display_name@, match r.fips {
        Some(f) => Some(f@),
        None => None,
    })
}

/// The rows of the built-in algorithm table, in order.
pub open spec fn builtin_algorithm_rows() -> Seq<(Seq<char>, QuantumStatus, Seq<char>, Option<Seq<char>>)> {
    seq![
        ("md5"@, QuantumStatus::BrokenClassically, "md5"@, None),
        ("sha-1"@, QuantumStatus::BrokenClassically, "sha-1"@, None),
        ("des"@, QuantumStatus::BrokenClassically, "des"@, None),
        ("3des"@, QuantumStatus::BrokenClassically, "3des"@, None),
        ("rc4"@, QuantumStatus::BrokenClassically, "rc4"@, None),
        ("jwt-alg-none"@, QuantumStatus::BrokenClassically, "jwt-alg-none"@, None),
        ("weak-cipher-suite"@, QuantumStatus::BrokenClassically, "weak-cipher-suite"@, None),
        ("rsa-undersized"@, QuantumStatus::BrokenClassically, "rsa-undersized"@, None),
        ("rsa-2048"@, QuantumStatus::BrokenByShor, "rsa-2048"@, None),
        ("rsa-3072"@, QuantumStatus::BrokenByShor, "rsa-3072"@, None),
        ("rsa-4096"@, QuantumStatus::BrokenByShor, "rsa-4096"@, None),
        ("rsa-unattributed"@, QuantumStatus::BrokenByShor, "rsa-unattributed"@, None),
        ("ecdsa-p256"@, QuantumStatus::BrokenByShor, "ecdsa-p256"@, None),
        ("ecdsa-p384"@, QuantumStatus::BrokenByShor, "ecdsa-p384"@, None),
        ("ecdsa-p521"@, QuantumStatus::BrokenByShor, "ecdsa-p521"@, None),
        ("ecdsa-unattributed"@, QuantumStatus::BrokenByShor, "ecdsa-unattributed"@, None),
        ("ecdh-p256"@, QuantumStatus::BrokenByShor, "ecdh-p256"@, None),
        ("ecdh-p384"@, QuantumStatus::BrokenByShor, "ecdh-p384"@, None),
        ("ecdh-p521"@, QuantumStatus::BrokenByShor, "ecdh-p521"@, None),
        ("ecdh-unattributed"@, QuantumStatus::BrokenByShor, "ecdh-unattributed"@, None),
        ("x25519"@, QuantumStatus::BrokenByShor, "x25519"@, None),
        ("ed25519"@, QuantumStatus::BrokenByShor, "ed25519"@, None),
        ("aes-128-ecb"@, QuantumStatus::BrokenClassically, "aes-128-ecb"@, None),
        ("aes-unattributed-ecb"@, QuantumStatus::BrokenClassically, "aes-unattributed-ecb"@, None),
        ("aes-128-gcm"@, QuantumStatus::WeakenedByGrover, "aes-128-gcm"@, None),
        ("aes-256-gcm"@, QuantumStatus::QuantumSafe, "AES-256-GCM"@, Some("FIPS 197"@)),
        ("aes-unattributed"@, QuantumStatus::WeakenedByGrover, "aes-unattributed"@, None),
        ("chacha20-poly1305"@, QuantumStatus::QuantumSafe, "chacha20-poly1305"@, None),
        ("sha-256"@, QuantumStatus::WeakenedByGrover, "sha-256"@, None),
        ("sha-384"@, QuantumStatus::QuantumSafe, "sha-384"@, None),
        ("sha-512"@, QuantumStatus::QuantumSafe, "sha-512"@, None),
        ("sha3-384"@, QuantumStatus::QuantumSafe, "sha3-384"@, None),
        ("rsa-pkcs1-sha1"@, QuantumStatus::BrokenClassically, "rsa-pkcs1-sha1"@, None),
        ("rsa-pkcs1-sha256"@, QuantumStatus::BrokenByShor, "rsa-pkcs1-sha256"@, None),
        ("rsa-pkcs1-sha384"@, QuantumStatus::BrokenByShor, "rsa-pkcs1-sha384"@, None),
        ("rsa-pkcs1-sha512"@, QuantumStatus::BrokenByShor, "rsa-pkcs1-sha512"@, None),
        ("tls-unattributed"@, QuantumStatus::BrokenByShor, "tls-unattributed"@, None),
        ("x25519-mlkem768"@, QuantumStatus::PqcFinal, "x25519-mlkem768"@, None),
        ("secp256r1-mlkem768"@, QuantumStatus::PqcFinal, "secp256r1-mlkem768"@, None),
        ("x-wing"@, QuantumStatus::PqcDraft, "x-wing"@, None),
        ("kem-unattributed"@, QuantumStatus::PqcFinal, "kem-unattributed"@, None),
        ("ml-kem-512"@, QuantumStatus::PqcFinal, "ML-KEM-512"@, Some("FIPS 203"@)),
        ("ml-kem-768"@, QuantumStatus::PqcFinal, "ML-KEM-768"@, Some("FIPS 203"@)),
        ("ml-kem-1024"@, QuantumStatus::PqcFinal, "ML-KEM-1024"@, Some("FIPS 203"@)),
        ("ml-dsa-44"@, QuantumStatus::PqcFinal, "ML-DSA-44"@, Some("FIPS 204"@)),
        ("ml-dsa-65"@, QuantumStatus::PqcFinal, "ML-DSA-65"@, Some("FIPS 204"@)),
        ("ml-dsa-87"@, QuantumStatus::PqcFinal, "ML-DSA-87"@, Some("FIPS 204"@)),
        ("fn-dsa-512"@, QuantumStatus::PqcDraft, "fn-dsa-512"@, None),
        ("slh-dsa-sha2-128s"@, QuantumStatus::PqcFinal, "SLH-DSA-SHA2-128s"@, Some("FIPS 205"@)),
    ]
}

/// The algorithm table, with no algorithm-id on two rows.
#[derive(Debug, Clone)]
pub struct AlgorithmTable {
    records: Vec<AlgorithmRecord>,
}

/// The ids of a list of records.
pub open spec fn record_ids(rs: Seq<AlgorithmRecord>) -> Seq<Seq<char>> {
    rs.map_values(|r: AlgorithmRecord| r.id@)
}

/// The first record with algorithm-id `id`.
pub open spec fn first_record(rs: Seq<AlgorithmRecord>, id: Seq<char>) -> Option<AlgorithmRecord>
    decreases rs.len(),
{
    if rs.len() == 0 {
        None
    } else if rs[0].id@ == id {
        Some(rs[0])
    } else {
        first_record(rs.drop_first(), id)
    }
}

/// No algorithm-id occurs on two rows.
pub open spec fn ids_distinct(ids: Seq<Seq<char>>) -> bool {
    forall|i: int, j: int| 0 <= i < j < ids.len() ==> ids[i] != ids[j]
}

impl AlgorithmTable {
    /// The table's rows.
    pub closed spec fn rows(&self) -> Seq<AlgorithmRecord> {
        self.records@
    }

    /// The row for algorithm-id `id`.
    pub open spec fn record(&self, id: Seq<char>) -> Option<AlgorithmRecord> {
        first_record(self.rows(), id)
    }

    /// The algorithm-ids the table has rows for.
    pub open spec fn ids(&self) -> Seq<Seq<char>> {
        record_ids(self.rows())
    }

    /// Build a table from rows; two rows with one id are refused.
    pub fn from_records(records: Vec<AlgorithmRecord>) -> (r: Option<AlgorithmTable>)
        ensures
            r is Some <==> ids_distinct(record_ids(records@)),
            r matches Some(t) ==> t.rows() == records@,
    {
        let mut i: usize = 0;
        while i < records.len()
            invariant
                i <= records@.len(),
                forall|a: int, b: int| 0 <= a < b < i ==> record_ids(records@)[a] != record_ids(records@)[b],
            decreases records.len() - i,
        {
            let mut j: usize = 0;
            while j < i
                invariant
                    j <= i < records@.len(),
                    forall|a: int| 0 <= a < j ==> record_ids(records@)[a] != record_ids(records@)[i as int],
                decreases i - j,
            {
                if str_eq(records[j].id.as_str(), records[i].id.as_str()) {
                    assert(record_ids(records@)[j as int] == record_ids(records@)[i as int]);
                    return None;
                }
                j = j + 1;
            }
            i = i + 1;
        }
        Some(AlgorithmTable { records })
    }

    /// The record for `id`, if the table has one.
    pub fn get(&self, id: &str) -> (r: Option<&AlgorithmRecord>)
        ensures
            match r {
                Some(rec) => rec.id@ == id@ && self.rows().contains(*rec),
                None => !self.ids().contains(id@),
            },
            match r {
                Some(rec) => self.record(id@) == Some(*rec),
                None => self.record(id@) is None,
            },
    {
        let mut i: usize = 0;
        assert(self.rows().subrange(0, self.rows().len() as int) =~= self.rows());
        while i < self.records.len()
            invariant
                i <= self.rows().len(),
                forall|a: int| 0 <= a < i ==> #[trigger] self.ids()[a] != id@,
                self.record(id@) == first_record(self.rows().subrange(i as int, self.rows().len() as int), id@),
            decreases self.records.len() - i,
        {
            let ghost rest = self.rows().subrange(i as int, self.rows().len() as int);
            assert(rest.drop_first() =~= self.rows().subrange(i + 1, self.rows().len() as int));
            if str_eq(self.records[i].id.as_str(), id) {
                assert(self.rows()[i as int] == self.records@[i as int]);
                return Some(&self.records[i]);
            }
            i = i + 1;
        }
        proof {
            if self.ids().contains(id@) {
                let k = choose|k: int| 0 <= k < self.ids().len() && self.ids()[k] == id@;
                assert(self.ids()[k] != id@);
            }
        }
        None
    }

    /// Does the table have a row for `id`?
    pub fn contains(&self, id: &str) -> (b: bool)
        ensures
            b == self.ids().contains(id@),
    {
        match self.get(id) {
            Some(rec) => {
                proof {
                    let k = choose|k: int| 0 <= k < self.rows().len() && self.rows()[k] == *rec;
                    assert(self.ids()[k] == id@);
                }
                true
            },
            None => false,
        }
    }

    /// Number of rows.
    pub fn len(&self) -> (n: usize)
        ensures
            n == self.rows().len(),
    {
        self.records.len()
    }

    /// The algorithm-ids of the table, in row order.
    pub fn id_list(&self) -> (r: Vec<String>)
        ensures
            r@.map_values(|s: String| s@) == self.ids(),
    {
        let mut r: Vec<String> = Vec::new();
        let mut i: usize = 0;
        while i < self.records.len()
            invariant
                i <= self.rows().len(),
                r@.map_values(|s: String| s@) == self.ids().subrange(0, i as int),
            decreases self.records.len() - i,
        {
            let ghost prev = r@;
            r.push(self.records[i].id.clone());
            assert(r@.map_values(|s: String| s@) =~= prev.map_values(|s: String| s@).push(self.ids()[i as int]));
            i = i + 1;
            assert(self.ids().subrange(0, i as int) =~= self.ids().subrange(0, i - 1).push(self.ids()[i - 1]));
        }
        assert(self.ids().subrange(0, self.ids().len() as int) =~= self.ids());
        r
    }

    /// The built-in algorithm table: the rows of `builtin_algorithm_rows`,
    /// when no algorithm-id is given twice.
    pub fn from_builtin() -> (r: Option<AlgorithmTable>)
        ensures
            r is Some <==> ids_distinct(builtin_algorithm_rows().map_values(|x: (Seq<char>, QuantumStatus, Seq<char>, Option<Seq<char>>)| x.0)),
            r matches Some(t) ==> t.rows().map_values(|rec: AlgorithmRecord| record_summary(rec)) == builtin_algorithm_rows(),
            r matches Some(t) ==> forall|i: int| 0 <= i < t.rows().len() ==> (#[trigger] t.rows()[i]).notes@ == Seq::<char>::empty()
                && t.rows()[i].replacement is None && t.rows()[i].oid is None,
    {
        let rows = vec![
            row("md5", QuantumStatus::BrokenClassically),
            row("sha-1", QuantumStatus::BrokenClassically),
            row("des", QuantumStatus::BrokenClassically),
            row("3des", QuantumStatus::BrokenClassically),
            row("rc4", QuantumStatus::BrokenClassically),
            row("jwt-alg-none", QuantumStatus::BrokenClassically),
            row("weak-cipher-suite", QuantumStatus::BrokenClassically),
            row("rsa-undersized", QuantumStatus::BrokenClassically),
            row("rsa-2048", QuantumStatus::BrokenByShor),
            row("rsa-3072", QuantumStatus::BrokenByShor),
            row("rsa-4096", QuantumStatus::BrokenByShor),
            row("rsa-unattributed", QuantumStatus::BrokenByShor),
            row("ecdsa-p256", QuantumStatus::BrokenByShor),
            row("ecdsa-p384", QuantumStatus::BrokenByShor),
            row("ecdsa-p521", QuantumStatus::BrokenByShor),
            row("ecdsa-unattributed", QuantumStatus::BrokenByShor),
            row("ecdh-p256", QuantumStatus::BrokenByShor),
            row("ecdh-p384", QuantumStatus::BrokenByShor),
            row("ecdh-p521", QuantumStatus::BrokenByShor),
            row("ecdh-unattributed", QuantumStatus::BrokenByShor),
            row("x25519", QuantumStatus::BrokenByShor),
            row("ed25519", QuantumStatus::BrokenByShor),
            row("aes-128-ecb", QuantumStatus::BrokenClassically),
            row("aes-unattributed-ecb", QuantumStatus::BrokenClassically),
            row("aes-128-gcm", QuantumStatus::WeakenedByGrover),
            standard("aes-256-gcm", QuantumStatus::QuantumSafe, "AES-256-GCM", "FIPS 197"),
            row("aes-unattributed", QuantumStatus::WeakenedByGrover),
            row("chacha20-poly1305", QuantumStatus::QuantumSafe),
            row("sha-256", QuantumStatus::WeakenedByGrover),
            row("sha-384", QuantumStatus::QuantumSafe),
            row("sha-512", QuantumStatus::QuantumSafe),
            row("sha3-384", QuantumStatus::QuantumSafe),
            row("rsa-pkcs1-sha1", QuantumStatus::BrokenClassically),
            row("rsa-pkcs1-sha256", QuantumStatus::BrokenByShor),
            row("rsa-pkcs1-sha384", QuantumStatus::BrokenByShor),
            row("rsa-pkcs1-sha512", QuantumStatus::BrokenByShor),
            row("tls-unattributed", QuantumStatus::BrokenByShor),
            row("x25519-mlkem768", QuantumStatus::PqcFinal),
            row("secp256r1-mlkem768", QuantumStatus::PqcFinal),
            row("x-wing", QuantumStatus::PqcDraft),
            row("kem-unattributed", QuantumStatus::PqcFinal),
            standard("ml-kem-512", QuantumStatus::PqcFinal, "ML-KEM-512", "FIPS 203"),
            standard("ml-kem-768", QuantumStatus::PqcFinal, "ML-KEM-768", "FIPS 203"),
            standard("ml-kem-1024", QuantumStatus::PqcFinal, "ML-KEM-1024", "FIPS 203"),
            standard("ml-dsa-44", QuantumStatus::PqcFinal, "ML-DSA-44", "FIPS 204"),
            standard("ml-dsa-65", QuantumStatus::PqcFinal, "ML-DSA-65", "FIPS 204"),
            standard("ml-dsa-87", QuantumStatus::PqcFinal, "ML-DSA-87", "FIPS 204"),
            row("fn-dsa-512", QuantumStatus::PqcDraft),
            standard("slh-dsa-sha2-128s", QuantumStatus::PqcFinal, "SLH-DSA-SHA2-128s", "FIPS 205"),
        ];
        assert(rows@.map_values(|rec: AlgorithmRecord| record_summary(rec)) =~= builtin_algorithm_rows());
        assert(record_ids(rows@) =~= builtin_algorithm_rows().map_values(|x: (Seq<char>, QuantumStatus, Seq<char>, Option<Seq<char>>)| x.0)) by {
            assert forall|i: int| 0 <= i < rows@.len() implies #[trigger] record_ids(rows@)[i] == builtin_algorithm_rows()[i].0 by {
                assert(rows@.map_values(|rec: AlgorithmRecord| record_summary(rec))[i] == record_summary(rows@[i]));
            }
        }
        AlgorithmTable::from_records(rows)
    }
}

fn row(id: &str, quantum_status: QuantumStatus) -> (r: AlgorithmRecord)
    ensures
        record_summary(r) == (id@, quantum_status, id@, None::<Seq<char>>),
        r.notes@ == Seq::<char>::empty(),
        r.replacement is None,
        r.oid is None,
{
    AlgorithmRecord {
        id: owned(id),
        quantum_status,
        display_name: owned(id),
        notes: String::new(),
        fips: None,
        replacement: None,
        oid: None,
    }
}

fn standard(id: &str, quantum_status: QuantumStatus, display_name: &str, fips: &str) -> (r: AlgorithmRecord)
    ensures
        record_summary(r) == (id@, quantum_status, display_name@, Some(fips@)),
        r.notes@ == Seq::<char>::empty(),
        r.replacement is None,
        r.oid is None,
{
    AlgorithmRecord {
        id: owned(id),
        quantum_status,
        display_name: owned(display_name),
        notes: String::new(),
        fips: Some(owned(fips)),
        replacement: None,
        oid: None,
    }
}

} // verus!
