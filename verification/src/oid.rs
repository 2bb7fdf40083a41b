//! OID table: X.509 / PKCS / NIST CSOR object identifiers mapped to
//! canonical algorithm-ids, no OID mapped twice.
use vstd::prelude::*;
use vstd::string::*;
use crate::algorithms::AlgorithmTable;
use crate::builtins::LoadError;
use crate::text::{owned, str_eq};

verus! {

/// What an OID pins down on its own.
#[derive(Debug, Clone, Copy, PartialEq, Eq, Structural)]
pub enum Determines {
    /// The OID fixes every parameter its algorithm-id names.
    Algorithm,
    /// The OID names a key type, or a padding and a digest; the remaining
    /// parameters live elsewhere.
    Family,
}

/// One row of the OID table.
#[derive(Debug, Clone)]
pub struct OidMapping {
    pub oid: String,
    pub algorithm_id: String,
    pub determines: Determines,
    pub note: String,
}

/// The OIDs of a list of rows.
pub open spec fn oids_of(rows: Seq<OidMapping>) -> Seq<Seq<char>> {
    rows.map_values(|m: OidMapping| m.oid@)
}

/// No OID occurs on two rows.
pub open spec fn oids_distinct(rows: Seq<OidMapping>) -> bool {
    forall|i: int, j: int| 0 <= i < j < rows.len() ==> rows[i].oid@ != rows[j].oid@
}

/// The algorithm-id a list of rows gives `oid`, if a row has it.
pub open spec fn oid_lookup(rows: Seq<OidMapping>, oid: Seq<char>) -> Option<Seq<char>> {
    if exists|i: int| 0 <= i < rows.len() && rows[i].oid@ == oid {
        let i = choose|i: int| 0 <= i < rows.len() && rows[i].oid@ == oid;
        Some(rows[i].algorithm_id@)
    } else {
        None
    }
}

/// What an OID row holds, as plain values.
pub open spec fn mapping_view(m: OidMapping) -> (Seq<char>, Seq<char>, Determines, Seq<char>) {
    (m.oid@, m.algorithm_id@, m.determines, m.note@)
}

/// The rows of the built-in OID table, in order: OID, algorithm-id, what
/// the OID determines, note.
pub open spec fn builtin_oid_rows() -> Seq<(Seq<char>, Seq<char>, Determines, Seq<char>)> {
    seq![
        ("1.2.840.113549.1.1.1"@, "rsa-unattributed"@, Determines::Family, "rsaEncryption: the modulus is in the key"@),
        ("1.2.840.10045.2.1"@, "ecdsa-unattributed"@, Determines::Family, "id-ecPublicKey: the curve is a parameter"@),
        ("1.2.840.10045.3.1.7"@, "ecdsa-p256"@, Determines::Algorithm, "secp256r1"@),
        ("1.3.132.0.34"@, "ecdsa-p384"@, Determines::Algorithm, "secp384r1"@),
        ("1.3.132.0.35"@, "ecdsa-p521"@, Determines::Algorithm, "secp521r1"@),
        ("1.3.101.110"@, "x25519"@, Determines::Algorithm, "id-X25519"@),
        ("1.3.101.112"@, "ed25519"@, Determines::Algorithm, "id-Ed25519"@),
        ("1.2.840.113549.2.5"@, "md5"@, Determines::Algorithm, "id-md5"@),
        ("1.3.14.3.2.26"@, "sha-1"@, Determines::Algorithm, "id-sha1"@),
        ("2.16.840.1.101.3.4.2.1"@, "sha-256"@, Determines::Algorithm, "id-sha256"@),
        ("2.16.840.1.101.3.4.2.2"@, "sha-384"@, Determines::Algorithm, "id-sha384"@),
        ("2.16.840.1.101.3.4.2.3"@, "sha-512"@, Determines::Algorithm, "id-sha512"@),
        ("2.16.840.1.101.3.4.4.2"@, "ml-kem-768"@, Determines::Algorithm, "id-alg-ml-kem-768"@),
        ("2.16.840.1.101.3.4.3.18"@, "ml-dsa-65"@, Determines::Algorithm, "id-ml-dsa-65"@),
    ]
}

/// The message a repeated OID is refused with.
pub open spec fn duplicate_message(oid: Seq<char>, was: Seq<char>, now: Seq<char>) -> Seq<char> {
    "duplicate OID `"@ + oid + "` (was `"@ + was + "`, now `"@ + now + "`)"@
}

/// Row `i` is the first row whose OID an earlier row has, and row `j` the
/// first earlier row with that OID.
pub open spec fn first_repeat(rows: Seq<OidMapping>, i: int, j: int) -> bool {
    &&& 0 <= j < i < rows.len()
    &&& rows[j].oid@ == rows[i].oid@
    &&& oids_distinct(rows.subrange(0, i))
    &&& forall|a: int| 0 <= a < j ==> rows[a].oid@ != rows[i].oid@
}

/// The message a row with an unknown algorithm is refused with.
pub open spec fn unknown_algorithm_message(oid: Seq<char>, algorithm_id: Seq<char>) -> Seq<char> {
    "OID `"@ + oid + "` references unknown algorithm `"@ + algorithm_id + "`"@
}

/// In-memory OID → algorithm-id map.
pub struct OidTable {
    by_oid: Vec<OidMapping>,
}

impl OidTable {
    /// The table's rows, each OID once.
    pub closed spec fn rows(&self) -> Seq<OidMapping> {
        self.by_oid@
    }

    #[verifier::type_invariant]
    closed spec fn wf(&self) -> bool {
        oids_distinct(self.by_oid@)
    }

    /// Build the table from rows in order; a second row for an OID already
    /// seen is refused.
    pub fn from_mappings(rows: Vec<OidMapping>) -> (r: Result<OidTable, LoadError>)
        ensures
            r is Ok <==> oids_distinct(rows@),
            r matches Ok(t) ==> t.rows() == rows@,
            r matches Err(e) ==> e is Invariant,
            r matches Err(LoadError::Invariant(m)) ==> exists|i: int, j: int|
                #[trigger] first_repeat(rows@, i, j) && m@ == duplicate_message(rows@[i].oid@, rows@[j].algorithm_id@, rows@[i].algorithm_id@),
    {
        let mut i: usize = 0;
        while i < rows.len()
            invariant
                i <= rows@.len(),
                oids_distinct(rows@.subrange(0, i as int)),
            decreases rows.len() - i,
        {
            let mut j: usize = 0;
            while j < i
                invariant
                    j <= i < rows@.len(),
                    oids_distinct(rows@.subrange(0, i as int)),
                    forall|a: int| 0 <= a < j ==> rows@[a].oid@ != rows@[i as int].oid@,
                decreases i - j,
            {
                if str_eq(rows[j].oid.as_str(), rows[i].oid.as_str()) {
                    assert(rows@[j as int].oid@ == rows@[i as int].oid@);
                    assert(first_repeat(rows@, i as int, j as int));
                    let mut msg = owned("duplicate OID `");
                    msg.append(rows[i].oid.as_str());
                    msg.append("` (was `");
                    msg.append(rows[j].algorithm_id.as_str());
                    msg.append("`, now `");
                    msg.append(rows[i].algorithm_id.as_str());
                    msg.append("`)");
                    return Err(LoadError::Invariant(msg));
                }
                j = j + 1;
            }
            i = i + 1;
            assert(oids_distinct(rows@.subrange(0, i as int))) by {
                assert forall|a: int, b: int| 0 <= a < b < i implies rows@.subrange(0, i as int)[a].oid@
                    != rows@.subrange(0, i as int)[b].oid@ by {
                    if b < i - 1 {
                        assert(rows@.subrange(0, i - 1)[a] == rows@[a]);
                        assert(rows@.subrange(0, i - 1)[b] == rows@[b]);
                    }
                }
            }
        }
        assert(rows@.subrange(0, rows@.len() as int) =~= rows@);
        Ok(OidTable { by_oid: rows })
    }

    /// Resolve an OID to its algorithm-id, if known.
    pub fn lookup(&self, oid: &str) -> (r: Option<&str>)
        ensures
            match r {
                Some(a) => oid_lookup(self.rows(), oid@) == Some(a@),
                None => oid_lookup(self.rows(), oid@) is None,
            },
    {
        proof {
            use_type_invariant(self);
        }
        let mut i: usize = 0;
        while i < self.by_oid.len()
            invariant
                i <= self.rows().len(),
                oids_distinct(self.rows()),
                forall|a: int| 0 <= a < i ==> #[trigger] self.rows()[a].oid@ != oid@,
            decreases self.by_oid.len() - i,
        {
            if str_eq(self.by_oid[i].oid.as_str(), oid) {
                let ghost k = choose|k: int| 0 <= k < self.rows().len() && self.rows()[k].oid@ == oid@;
                assert(self.rows()[i as int].oid@ == oid@);
                assert(k == i);
                return Some(self.by_oid[i].algorithm_id.as_str());
            }
            i = i + 1;
        }
        None
    }

    /// Number of mappings.
    pub fn len(&self) -> (n: usize)
        ensures
            n == self.rows().len(),
    {
        self.by_oid.len()
    }

    /// Does the table hold no mapping?
    pub fn is_empty(&self) -> (b: bool)
        ensures
            b == (self.rows().len() == 0),
    {
        self.by_oid.len() == 0
    }

    /// Every algorithm-id the table names exists in the algorithm table.
    pub fn cross_check(&self, algorithms: &AlgorithmTable) -> (r: Result<(), LoadError>)
        ensures
            r is Ok <==> forall|i: int| 0 <= i < self.rows().len() ==> algorithms.ids().contains(
                #[trigger] self.rows()[i].algorithm_id@,
            ),
            r matches Err(e) ==> e is Invariant,
            r matches Err(LoadError::Invariant(m)) ==> exists|i: int|
                0 <= i < self.rows().len() && (forall|a: int| 0 <= a < i ==> algorithms.ids().contains(#[trigger] self.rows()[a].algorithm_id@))
                && !algorithms.ids().contains(self.rows()[i].algorithm_id@)
                && m@ == #[trigger] unknown_algorithm_message(self.rows()[i].oid@, self.rows()[i].algorithm_id@),
    {
        let mut i: usize = 0;
        while i < self.by_oid.len()
            invariant
                i <= self.rows().len(),
                forall|a: int| 0 <= a < i ==> algorithms.ids().contains(#[trigger] self.rows()[a].algorithm_id@),
            decreases self.by_oid.len() - i,
        {
            let m = &self.by_oid[i];
            if !algorithms.contains(m.algorithm_id.as_str()) {
                let mut msg = owned("OID `");
                msg.append(m.oid.as_str());
                msg.append("` references unknown algorithm `");
                msg.append(m.algorithm_id.as_str());
                msg.append("`");
                assert(msg@ == unknown_algorithm_message(self.rows()[i as int].oid@, self.rows()[i as int].algorithm_id@));
                return Err(LoadError::Invariant(msg));
            }
            i = i + 1;
        }
        Ok(())
    }

    /// The built-in OID table: the rows of `builtin_oid_rows`, refused if
    /// an OID were given twice.
    pub fn from_builtin() -> (r: Result<OidTable, LoadError>)
        ensures
            r is Ok <==> (forall|i: int, j: int| 0 <= i < j < builtin_oid_rows().len() ==> builtin_oid_rows()[i].0 != builtin_oid_rows()[j].0),
            r matches Ok(t) ==> t.rows().map_values(|m: OidMapping| mapping_view(m)) == builtin_oid_rows(),
            r matches Err(e) ==> e is Invariant,
    {
        let rows = vec![
            mapping("1.2.840.113549.1.1.1", "rsa-unattributed", Determines::Family, "rsaEncryption: the modulus is in the key"),
            mapping("1.2.840.10045.2.1", "ecdsa-unattributed", Determines::Family, "id-ecPublicKey: the curve is a parameter"),
            mapping("1.2.840.10045.3.1.7", "ecdsa-p256", Determines::Algorithm, "secp256r1"),
            mapping("1.3.132.0.34", "ecdsa-p384", Determines::Algorithm, "secp384r1"),
            mapping("1.3.132.0.35", "ecdsa-p521", Determines::Algorithm, "secp521r1"),
            mapping("1.3.101.110", "x25519", Determines::Algorithm, "id-X25519"),
            mapping("1.3.101.112", "ed25519", Determines::Algorithm, "id-Ed25519"),
            mapping("1.2.840.113549.2.5", "md5", Determines::Algorithm, "id-md5"),
            mapping("1.3.14.3.2.26", "sha-1", Determines::Algorithm, "id-sha1"),
            mapping("2.16.840.1.101.3.4.2.1", "sha-256", Determines::Algorithm, "id-sha256"),
            mapping("2.16.840.1.101.3.4.2.2", "sha-384", Determines::Algorithm, "id-sha384"),
            mapping("2.16.840.1.101.3.4.2.3", "sha-512", Determines::Algorithm, "id-sha512"),
            mapping("2.16.840.1.101.3.4.4.2", "ml-kem-768", Determines::Algorithm, "id-alg-ml-kem-768"),
            mapping("2.16.840.1.101.3.4.3.18", "ml-dsa-65", Determines::Algorithm, "id-ml-dsa-65"),
        ];
        assert(rows@.map_values(|m: OidMapping| mapping_view(m)) =~= builtin_oid_rows());
        assert forall|i: int| 0 <= i < rows@.len() implies #[trigger] rows@[i].oid@ == builtin_oid_rows()[i].0 by {
            assert(rows@.map_values(|m: OidMapping| mapping_view(m))[i] == mapping_view(rows@[i]));
        }
        OidTable::from_mappings(rows)
    }
}

fn mapping(oid: &str, algorithm_id: &str, determines: Determines, note: &str) -> (m: OidMapping)
    ensures
        m.oid@ == oid@,
        m.algorithm_id@ == algorithm_id@,
        m.determines == determines,
        m.note@ == note@,
{
    OidMapping { oid: owned(oid), algorithm_id: owned(algorithm_id), determines, note: owned(note) }
}

/// What a loaded table gives back: each row's OID resolves to that row's
/// algorithm-id, and an OID no row has resolves to nothing.
pub proof fn lemma_lookup_returns_loaded_row(rows: Seq<OidMapping>, i: int, other: Seq<char>)
    requires
        oids_distinct(rows),
        0 <= i < rows.len(),
        forall|k: int| 0 <= k < rows.len() ==> rows[k].oid@ != other,
    ensures
        oid_lookup(rows, rows[i].oid@) == Some(rows[i].algorithm_id@),
        oid_lookup(rows, other) is None,
{
    let k = choose|k: int| 0 <= k < rows.len() && rows[k].oid@ == rows[i].oid@;
    if k != i {
        if k < i {
            assert(rows[k].oid@ != rows[i].oid@);
        } else {
            assert(rows[i].oid@ != rows[k].oid@);
        }
    }
}

} // verus!
