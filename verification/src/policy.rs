//! Policy: deprecation dates, the QuantumRiskScore weights, severity bands
//! and the HNDL criteria. A policy reweights findings; it never creates or
//! suppresses a detection.
use vstd::prelude::*;
use vstd::string::*;
use crate::algorithms::{AlgorithmTable, QuantumStatus};
use crate::builtins::LoadError;
use crate::extract::int_text;
use crate::text::{owned, str_eq};

verus! {

#[derive(Debug, Clone)]
pub struct Meta {
    pub name: String,
    pub display_name: String,
    pub source_url: String,
    pub notes: String,
}

#[derive(Debug, Clone)]
pub struct Deprecation {
    pub asymmetric_112bit_deprecated_after: u16,
    pub asymmetric_112bit_disallowed_after: u16,
    pub asymmetric_128bit_plus_disallowed_after: u16,
    pub aes_128_acceptable: bool,
    pub aes_192_acceptable: bool,
    pub aes_256_acceptable: bool,
    pub sha_256_acceptable: bool,
    pub sha_384_acceptable: bool,
    pub sha_512_acceptable: bool,
    pub classically_broken: Vec<String>,
    /// Algorithm-ids this jurisdiction excludes from its approved list even
    /// though they are not broken for anyone else.
    pub policy_disallowed: Vec<String>,
}

#[derive(Debug, Clone, Copy)]
pub struct RiskWeights {
    pub algorithm_vulnerability: u8,
    pub usage_context: u8,
    pub data_shelf_life: u8,
    pub exposure: u8,
    pub detection_confidence: u8,
}

/// The sum of the five score weights.
pub open spec fn weights_sum(w: RiskWeights) -> int {
    w.algorithm_vulnerability + w.usage_context + w.data_shelf_life + w.exposure + w.detection_confidence
}

impl RiskWeights {
    /// The sum of the five weights.
    pub fn sum(&self) -> (s: u32)
        ensures
            s == weights_sum(*self),
    {
        self.algorithm_vulnerability as u32 + self.usage_context as u32 + self.data_shelf_life as u32
            + self.exposure as u32 + self.detection_confidence as u32
    }
}

#[derive(Debug, Clone, Copy)]
pub struct UsageContextWeights {
    pub key_establishment_long_lived: u8,
    pub key_establishment_ephemeral: u8,
    pub data_at_rest_encryption: u8,
    pub signature_long_lived: u8,
    pub signature_ephemeral: u8,
    pub authentication_only: u8,
    pub hashing: u8,
    pub unknown: u8,
}

#[derive(Debug, Clone, Copy)]
pub struct DataShelfLifeBuckets {
    pub ephemeral: u8,
    pub short: u8,
    pub medium: u8,
    pub long: u8,
}

#[derive(Debug, Clone)]
pub struct ShelfLifeDefault {
    pub bucket: String,
}

#[derive(Debug, Clone, Copy)]
pub struct ExposureWeights {
    pub public_internet: u8,
    pub internal_service: u8,
    pub local_only: u8,
}

#[derive(Debug, Clone, Copy)]
pub struct ConfidenceWeights {
    pub literal_arg: u8,
    pub typename: u8,
    pub variable: u8,
    pub string_table: u8,
    pub unknown: u8,
}

#[derive(Debug, Clone, Copy)]
pub struct SeverityBands {
    pub critical: u8,
    pub high: u8,
    pub medium: u8,
    pub low: u8,
    pub safe: u8,
}

#[derive(Debug, Clone)]
pub struct HndlFlag {
    pub require_quantum_status_in: Vec<QuantumStatus>,
    pub require_usage_context_in: Vec<String>,
    pub require_min_shelf_life_bucket: String,
}

#[derive(Debug, Clone)]
pub struct Ci {
    pub fail_on: String,
}

/// A full policy bundle.
#[derive(Debug, Clone)]
pub struct Policy {
    pub meta: Meta,
    pub deprecation: Deprecation,
    pub risk_weights: RiskWeights,
    /// Weight of each quantum status.
    pub algorithm_vulnerability: Vec<(QuantumStatus, u8)>,
    pub usage_context: UsageContextWeights,
    pub data_shelf_life: DataShelfLifeBuckets,
    /// Path glob → shelf-life bucket.
    pub shelf_life_tags: Vec<(String, String)>,
    pub shelf_life_default: ShelfLifeDefault,
    pub exposure: ExposureWeights,
    pub detection_confidence: ConfidenceWeights,
    pub severity_bands: SeverityBands,
    pub hndl_flag: HndlFlag,
    pub ci: Ci,
}

/// The shelf-life buckets a policy may name.
pub open spec fn known_bucket(b: Seq<char>) -> bool {
    b == "ephemeral"@ || b == "short"@ || b == "medium"@ || b == "long"@
}

/// The quantum statuses a policy must weigh.
pub open spec fn all_statuses() -> Seq<QuantumStatus> {
    seq![
        QuantumStatus::BrokenClassically,
        QuantumStatus::BrokenByShor,
        QuantumStatus::WeakenedByGrover,
        QuantumStatus::QuantumSafe,
        QuantumStatus::PqcFinal,
        QuantumStatus::PqcDraft,
    ]
}

/// Severity bands strictly decrease from critical to safe.
pub open spec fn bands_decreasing(b: SeverityBands) -> bool {
    b.critical > b.high && b.high > b.medium && b.medium > b.low && b.low > b.safe
}

/// `s` has a weight in the table.
pub open spec fn weighs(t: Seq<(QuantumStatus, u8)>, s: QuantumStatus) -> bool {
    exists|i: int| 0 <= i < t.len() && #[trigger] t[i].0 == s
}

/// No quantum status is weighed twice.
pub open spec fn statuses_distinct(t: Seq<(QuantumStatus, u8)>) -> bool {
    forall|i: int, j: int| 0 <= i < j < t.len() ==> t[i].0 != t[j].0
}

/// No path glob is tagged twice.
pub open spec fn globs_distinct(t: Seq<(String, String)>) -> bool {
    forall|i: int, j: int| 0 <= i < j < t.len() ==> t[i].0@ != t[j].0@
}

/// The static invariants the scorer relies on; the two tables are maps,
/// each key given once.
pub open spec fn policy_valid(p: Policy) -> bool {
    &&& weights_sum(p.risk_weights) == 100
    &&& bands_decreasing(p.severity_bands)
    &&& forall|k: int| 0 <= k < all_statuses().len() ==> weighs(p.algorithm_vulnerability@, #[trigger] all_statuses()[k])
    &&& forall|i: int| 0 <= i < p.shelf_life_tags@.len() ==> known_bucket(#[trigger] p.shelf_life_tags@[i].1@)
    &&& known_bucket(p.shelf_life_default.bucket@)
    &&& statuses_distinct(p.algorithm_vulnerability@)
    &&& globs_distinct(p.shelf_life_tags@)
}

/// Every algorithm-id the policy names is in the table.
pub open spec fn policy_ids_known(p: Policy, ids: Seq<Seq<char>>) -> bool {
    &&& forall|i: int| 0 <= i < p.deprecation.classically_broken@.len() ==> ids.contains(
        #[trigger] p.deprecation.classically_broken@[i]@,
    )
    &&& forall|i: int| 0 <= i < p.deprecation.policy_disallowed@.len() ==> ids.contains(
        #[trigger] p.deprecation.policy_disallowed@[i]@,
    )
}

fn is_known_bucket(b: &str) -> (r: bool)
    ensures
        r == known_bucket(b@),
{
    str_eq(b, "ephemeral") || str_eq(b, "short") || str_eq(b, "medium") || str_eq(b, "long")
}

fn has_weight(t: &Vec<(QuantumStatus, u8)>, s: QuantumStatus) -> (r: bool)
    ensures
        r == weighs(t@, s),
{
    let mut i: usize = 0;
    while i < t.len()
        invariant
            i <= t@.len(),
            forall|j: int| 0 <= j < i ==> #[trigger] t@[j].0 != s,
        decreases t.len() - i,
    {
        if t[i].0 == s {
            assert(t@[i as int].0 == s);
            return true;
        }
        i = i + 1;
    }
    false
}

fn statuses_unique(t: &Vec<(QuantumStatus, u8)>) -> (r: bool)
    ensures
        r == statuses_distinct(t@),
{
    let mut j: usize = 0;
    while j < t.len()
        invariant
            j <= t@.len(),
            forall|a: int, b: int| 0 <= a < b < j ==> t@[a].0 != t@[b].0,
        decreases t.len() - j,
    {
        let mut i: usize = 0;
        while i < j
            invariant
                i <= j < t@.len(),
                forall|a: int, b: int| 0 <= a < b < j ==> t@[a].0 != t@[b].0,
                forall|a: int| 0 <= a < i ==> t@[a].0 != t@[j as int].0,
            decreases j - i,
        {
            if t[i].0 == t[j].0 {
                return false;
            }
            i = i + 1;
        }
        j = j + 1;
    }
    true
}

fn globs_unique(t: &Vec<(String, String)>) -> (r: bool)
    ensures
        r == globs_distinct(t@),
{
    let mut j: usize = 0;
    while j < t.len()
        invariant
            j <= t@.len(),
            forall|a: int, b: int| 0 <= a < b < j ==> t@[a].0@ != t@[b].0@,
        decreases t.len() - j,
    {
        let mut i: usize = 0;
        while i < j
            invariant
                i <= j < t@.len(),
                forall|a: int, b: int| 0 <= a < b < j ==> t@[a].0@ != t@[b].0@,
                forall|a: int| 0 <= a < i ==> t@[a].0@ != t@[j as int].0@,
            decreases j - i,
        {
            if str_eq(t[i].0.as_str(), t[j].0.as_str()) {
                return false;
            }
            i = i + 1;
        }
        j = j + 1;
    }
    true
}

fn decimal(n: u32) -> (s: String)
    ensures
        s@ == int_text(n as int),
{
    crate::extract::ArgValue::Int(n as i64).as_str()
}

fn invariant_error(text: &str) -> (e: LoadError)
    ensures
        e is Invariant,
{
    LoadError::Invariant(owned(text))
}

fn in_ids(id: &str, list: &Vec<String>) -> (r: bool)
    ensures
        r == list@.map_values(|s: String| s@).contains(id@),
{
    let ghost v = list@.map_values(|s: String| s@);
    let mut i: usize = 0;
    while i < list.len()
        invariant
            i <= list@.len(),
            v == list@.map_values(|s: String| s@),
            forall|j: int| 0 <= j < i ==> #[trigger] v[j] != id@,
        decreases list.len() - i,
    {
        if str_eq(list[i].as_str(), id) {
            assert(v[i as int] == id@);
            return true;
        }
        i = i + 1;
    }
    proof {
        if v.contains(id@) {
            let k = choose|k: int| 0 <= k < v.len() && v[k] == id@;
            assert(v[k] != id@);
        }
    }
    false
}

/// The message a policy naming an algorithm the table lacks is refused with.
pub open spec fn unknown_id_message(field: Seq<char>, id: Seq<char>) -> Seq<char> {
    "policy."@ + field + " contains `"@ + id + "` which is not in the algorithm table"@
}

/// `m` names `field` and the first id of `ids` the table lacks.
pub open spec fn names_first_unknown(field: Seq<char>, ids: Seq<String>, known: Seq<Seq<char>>, m: Seq<char>) -> bool {
    exists|i: int|
        0 <= i < ids.len() && (forall|a: int| 0 <= a < i ==> known.contains(#[trigger] ids[a]@)) && !known.contains(ids[i]@)
            && m == #[trigger] unknown_id_message(field, ids[i]@)
}

/// Every id of `ids` is in the table; on the first that is not, an
/// invariant error naming the field.
fn ids_in_table(field: &str, ids: &Vec<String>, algorithms: &AlgorithmTable) -> (r: Result<(), LoadError>)
    ensures
        r is Ok <==> forall|i: int| 0 <= i < ids@.len() ==> algorithms.ids().contains(#[trigger] ids@[i]@),
        r matches Err(e) ==> e is Invariant,
        r matches Err(LoadError::Invariant(m)) ==> names_first_unknown(field@, ids@, algorithms.ids(), m@),
{
    let mut i: usize = 0;
    while i < ids.len()
        invariant
            i <= ids@.len(),
            forall|a: int| 0 <= a < i ==> algorithms.ids().contains(#[trigger] ids@[a]@),
        decreases ids.len() - i,
    {
        if !algorithms.contains(ids[i].as_str()) {
            let mut msg = owned("policy.");
            msg.append(field);
            msg.append(" contains `");
            msg.append(ids[i].as_str());
            msg.append("` which is not in the algorithm table");
            assert(msg@ == unknown_id_message(field@, ids@[i as int]@));
            return Err(LoadError::Invariant(msg));
        }
        i = i + 1;
    }
    Ok(())
}

impl Policy {
    /// Does this policy's jurisdiction exclude `algorithm_id` from its
    /// approved list?
    pub fn disallows(&self, algorithm_id: &str) -> (b: bool)
        ensures
            b == self.deprecation.policy_disallowed@.map_values(|s: String| s@).contains(algorithm_id@),
    {
        in_ids(algorithm_id, &self.deprecation.policy_disallowed)
    }

    /// Check the static invariants the scorer relies on: the weights sum to
    /// 100, the severity bands strictly decrease, every quantum status has a
    /// weight, and every shelf-life bucket named is a known one.
    pub fn validate(&self) -> (r: Result<(), LoadError>)
        ensures
            r is Ok <==> policy_valid(*self),
            r matches Err(e) ==> e is Invariant,
    {
        let sum = self.risk_weights.sum();
        if sum != 100 {
            let mut msg = owned("risk_weights sum to ");
            msg.append(decimal(sum).as_str());
            msg.append(", expected 100");
            return Err(LoadError::Invariant(msg));
        }
        let b = self.severity_bands;
        if b.critical <= b.high {
            return Err(invariant_error("severity_bands not monotonically decreasing: critical ≤ high"));
        }
        if b.high <= b.medium {
            return Err(invariant_error("severity_bands not monotonically decreasing: high ≤ medium"));
        }
        if b.medium <= b.low {
            return Err(invariant_error("severity_bands not monotonically decreasing: medium ≤ low"));
        }
        if b.low <= b.safe {
            return Err(invariant_error("severity_bands not monotonically decreasing: low ≤ safe"));
        }
        let statuses = vec![
            QuantumStatus::BrokenClassically,
            QuantumStatus::BrokenByShor,
            QuantumStatus::WeakenedByGrover,
            QuantumStatus::QuantumSafe,
            QuantumStatus::PqcFinal,
            QuantumStatus::PqcDraft,
        ];
        assert(statuses@ =~= all_statuses());
        let mut k: usize = 0;
        while k < statuses.len()
            invariant
                k <= statuses@.len(),
                statuses@ == all_statuses(),
                forall|j: int| 0 <= j < k ==> weighs(self.algorithm_vulnerability@, #[trigger] all_statuses()[j]),
            decreases statuses.len() - k,
        {
            if !has_weight(&self.algorithm_vulnerability, statuses[k]) {
                return Err(invariant_error("algorithm_vulnerability missing weight for a quantum status"));
            }
            k = k + 1;
        }
        if !statuses_unique(&self.algorithm_vulnerability) {
            return Err(invariant_error("algorithm_vulnerability weighs a quantum status twice"));
        }
        if !globs_unique(&self.shelf_life_tags) {
            return Err(invariant_error("shelf_life_tags tags a path glob twice"));
        }
        let mut i: usize = 0;
        while i < self.shelf_life_tags.len()
            invariant
                i <= self.shelf_life_tags@.len(),
                forall|j: int| 0 <= j < i ==> known_bucket(#[trigger] self.shelf_life_tags@[j].1@),
            decreases self.shelf_life_tags.len() - i,
        {
            if !is_known_bucket(self.shelf_life_tags[i].1.as_str()) {
                let mut msg = owned("shelf_life_tags[");
                msg.append(self.shelf_life_tags[i].0.as_str());
                msg.append("] = `");
                msg.append(self.shelf_life_tags[i].1.as_str());
                msg.append("` is not a known bucket");
                return Err(LoadError::Invariant(msg));
            }
            i = i + 1;
        }
        if !is_known_bucket(self.shelf_life_default.bucket.as_str()) {
            let mut msg = owned("shelf_life_default.bucket = `");
            msg.append(self.shelf_life_default.bucket.as_str());
            msg.append("` is not a known bucket");
            return Err(LoadError::Invariant(msg));
        }
        Ok(())
    }

    /// Every algorithm-id the policy names exists in the algorithm table.
    pub fn cross_check(&self, algorithms: &AlgorithmTable) -> (r: Result<(), LoadError>)
        ensures
            r is Ok <==> policy_ids_known(*self, algorithms.ids()),
            r matches Err(e) ==> e is Invariant,
            r matches Err(LoadError::Invariant(m)) ==> if forall|i: int|
                0 <= i < self.deprecation.classically_broken@.len() ==> algorithms.ids().contains(
                    #[trigger] self.deprecation.classically_broken@[i]@,
                ) {
                names_first_unknown("policy_disallowed"@, self.deprecation.policy_disallowed@, algorithms.ids(), m@)
            } else {
                names_first_unknown("classically_broken"@, self.deprecation.classically_broken@, algorithms.ids(), m@)
            },
    {
        match ids_in_table("classically_broken", &self.deprecation.classically_broken, algorithms) {
            Ok(()) => {},
            Err(e) => {
                return Err(e);
            },
        }
        ids_in_table("policy_disallowed", &self.deprecation.policy_disallowed, algorithms)
    }

    /// The built-in preset names, in listing order.
    pub fn preset_names() -> (r: Vec<&'static str>)
        ensures
            r@.map_values(|s: &str| s@) == preset_list(),
    {
        let r = vec!["nist-default", "nsa-cnsa2"];
        assert(r@.map_values(|s: &str| s@) =~= preset_list());
        r
    }

    /// The `nist-default` policy, the built-in default.
    pub fn from_builtin() -> (r: Result<Policy, LoadError>)
        ensures
            r matches Ok(p) && p.meta.name@ == "nist-default"@ && p.meta.source_url@ == preset_source_url("nist-default"@)
                && nist_default_facts(p)
                && p.deprecation.policy_disallowed@.len() == 0,
    {
        let p = nist_default();
        match p.validate() {
            Ok(()) => Ok(p),
            Err(e) => Err(e),
        }
    }

    /// The built-in preset called `name`, validated; `None` when no preset
    /// has that name.
    pub fn from_preset(name: &str) -> (r: Option<Result<Policy, LoadError>>)
        ensures
            r is Some <==> preset_list().contains(name@),
            preset_list().contains(name@) ==> (r matches Some(Ok(p)) && p.meta.name@ == name@
                && p.meta.source_url@ == preset_source_url(name@) && nist_default_facts(p)
                && p.deprecation.policy_disallowed@.map_values(|s: String| s@) == preset_disallowed(name@)),
    {
        assert(preset_list()[0] == "nist-default"@ && preset_list()[1] == "nsa-cnsa2"@);
        proof {
            reveal_strlit("nist-default");
            reveal_strlit("nsa-cnsa2");
            assert("nist-default"@[1] != "nsa-cnsa2"@[1]);
        }
        let p = if str_eq(name, "nist-default") {
            nist_default()
        } else if str_eq(name, "nsa-cnsa2") {
            nsa_cnsa2()
        } else {
            return None;
        };
        match p.validate() {
            Ok(()) => Some(Ok(p)),
            Err(e) => Some(Err(e)),
        }
    }
}

/// What every built-in preset holds: it is valid, its weights are 40 / 20
/// / 15 / 15 / 10, its severity bands 80 / 60 / 40 / 20 / 0, and it counts
/// MD5, SHA-1, DES, 3DES and RC4 as classically broken.
pub open spec fn nist_default_facts(p: Policy) -> bool {
    &&& policy_valid(p)
    &&& p.risk_weights == (RiskWeights {
        algorithm_vulnerability: 40,
        usage_context: 20,
        data_shelf_life: 15,
        exposure: 15,
        detection_confidence: 10,
    })
    &&& p.severity_bands == (SeverityBands { critical: 80, high: 60, medium: 40, low: 20, safe: 0 })
    &&& p.deprecation.classically_broken@.map_values(|s: String| s@) == classically_broken_ids()
}

/// The algorithms every built-in preset counts as classically broken.
pub open spec fn classically_broken_ids() -> Seq<Seq<char>> {
    seq!["md5"@, "sha-1"@, "des"@, "3des"@, "rc4"@]
}

/// The primary source a built-in preset cites.
pub open spec fn preset_source_url(name: Seq<char>) -> Seq<char> {
    if name == "nsa-cnsa2"@ {
        "https://media.defense.gov/2022/Sep/07/2003071834/-1/-1/0/CSA_CNSA_2.0_ALGORITHMS_.PDF"@
    } else {
        "https://csrc.nist.gov/pubs/ir/8547/ipd"@
    }
}

/// The algorithm-ids a built-in preset excludes from its approved list.
pub open spec fn preset_disallowed(name: Seq<char>) -> Seq<Seq<char>> {
    if name == "nsa-cnsa2"@ {
        seq!["aes-128-gcm"@, "sha-256"@, "ml-kem-512"@, "ml-kem-768"@, "ml-dsa-44"@, "ml-dsa-65"@, "fn-dsa-512"@]
    } else {
        Seq::empty()
    }
}

/// The built-in preset names.
pub open spec fn preset_list() -> Seq<Seq<char>> {
    seq!["nist-default"@, "nsa-cnsa2"@]
}

fn strings(items: Vec<&str>) -> (r: Vec<String>)
    ensures
        r@.map_values(|s: String| s@) == items@.map_values(|s: &str| s@),
{
    let mut r: Vec<String> = Vec::new();
    let mut i: usize = 0;
    while i < items.len()
        invariant
            i <= items@.len(),
            r@.map_values(|s: String| s@) == items@.map_values(|s: &str| s@).subrange(0, i as int),
        decreases items.len() - i,
    {
        let ghost prev = r@;
        r.push(owned(items[i]));
        assert(r@.map_values(|s: String| s@) =~= prev.map_values(|s: String| s@).push(items@[i as int]@));
        i = i + 1;
        assert(items@.map_values(|s: &str| s@).subrange(0, i as int) =~= items@.map_values(|s: &str| s@).subrange(0, i - 1).push(items@[i - 1]@));
    }
    assert(items@.map_values(|s: &str| s@).subrange(0, items@.len() as int) =~= items@.map_values(|s: &str| s@));
    r
}

/// NIST IR 8547 defaults.
fn nist_default() -> (p: Policy)
    ensures
        p.meta.name@ == "nist-default"@,
        p.meta.source_url@ == preset_source_url("nist-default"@),
        nist_default_facts(p),
        p.deprecation.policy_disallowed@.len() == 0,
{
    let broken = vec!["md5", "sha-1", "des", "3des", "rc4"];
    assert(broken@.map_values(|s: &str| s@) =~= seq!["md5"@, "sha-1"@, "des"@, "3des"@, "rc4"@]);
    let p = Policy {
        meta: Meta {
            name: owned("nist-default"),
            display_name: owned("NIST IR 8547 (initial public draft)"),
            source_url: owned("https://csrc.nist.gov/pubs/ir/8547/ipd"),
            notes: owned(""),
        },
        deprecation: Deprecation {
            asymmetric_112bit_deprecated_after: 2030,
            asymmetric_112bit_disallowed_after: 2035,
            asymmetric_128bit_plus_disallowed_after: 2035,
            aes_128_acceptable: true,
            aes_192_acceptable: true,
            aes_256_acceptable: true,
            sha_256_acceptable: true,
            sha_384_acceptable: true,
            sha_512_acceptable: true,
            classically_broken: strings(broken),
            policy_disallowed: Vec::new(),
        },
        risk_weights: RiskWeights {
            algorithm_vulnerability: 40,
            usage_context: 20,
            data_shelf_life: 15,
            exposure: 15,
            detection_confidence: 10,
        },
        algorithm_vulnerability: vec![
            (QuantumStatus::BrokenClassically, 100),
            (QuantumStatus::BrokenByShor, 90),
            (QuantumStatus::WeakenedByGrover, 40),
            (QuantumStatus::QuantumSafe, 0),
            (QuantumStatus::PqcFinal, 0),
            (QuantumStatus::PqcDraft, 10),
        ],
        usage_context: UsageContextWeights {
            key_establishment_long_lived: 100,
            key_establishment_ephemeral: 70,
            data_at_rest_encryption: 90,
            signature_long_lived: 80,
            signature_ephemeral: 50,
            authentication_only: 40,
            hashing: 30,
            unknown: 60,
        },
        data_shelf_life: DataShelfLifeBuckets { ephemeral: 10, short: 30, medium: 60, long: 100 },
        shelf_life_tags: vec![
            (owned("**/backup/**"), owned("long")),
            (owned("**/archive/**"), owned("long")),
            (owned("**/session/**"), owned("ephemeral")),
        ],
        shelf_life_default: ShelfLifeDefault { bucket: owned("short") },
        exposure: ExposureWeights { public_internet: 100, internal_service: 60, local_only: 20 },
        detection_confidence: ConfidenceWeights {
            literal_arg: 100,
            typename: 90,
            variable: 60,
            string_table: 50,
            unknown: 30,
        },
        severity_bands: SeverityBands { critical: 80, high: 60, medium: 40, low: 20, safe: 0 },
        hndl_flag: HndlFlag {
            require_quantum_status_in: vec![QuantumStatus::BrokenByShor],
            require_usage_context_in: strings(vec!["KeyEstablishmentLongLived", "DataAtRestEncryption"]),
            require_min_shelf_life_bucket: owned("medium"),
        },
        ci: Ci { fail_on: owned("high") },
    };
    proof {
        reveal_strlit("nist-default");
        reveal_strlit("nsa-cnsa2");
        assert("nist-default"@[1] != "nsa-cnsa2"@[1]);
    }
    proof {
        let t = p.algorithm_vulnerability@;
        assert(t[0].0 == QuantumStatus::BrokenClassically);
        assert(t[1].0 == QuantumStatus::BrokenByShor);
        assert(t[2].0 == QuantumStatus::WeakenedByGrover);
        assert(t[3].0 == QuantumStatus::QuantumSafe);
        assert(t[4].0 == QuantumStatus::PqcFinal);
        assert(t[5].0 == QuantumStatus::PqcDraft);
        assert forall|k: int| 0 <= k < all_statuses().len() implies weighs(t, #[trigger] all_statuses()[k]) by {
            assert(t[k].0 == all_statuses()[k]);
        }
        assert(known_bucket(p.shelf_life_tags@[0].1@));
        assert(known_bucket(p.shelf_life_tags@[1].1@));
        assert(known_bucket(p.shelf_life_tags@[2].1@));
        reveal_strlit("**/backup/**");
        reveal_strlit("**/archive/**");
        reveal_strlit("**/session/**");
        assert("**/backup/**"@.len() == 12);
        assert("**/archive/**"@.len() == 13 && "**/archive/**"@[3] == 'a');
        assert("**/session/**"@.len() == 13 && "**/session/**"@[3] == 's');
        assert(policy_valid(p));
    }
    p
}

/// CNSA 2.0: the NIST defaults, with AES-128, SHA-256 and the post-quantum
/// parameter sets below the CNSA 2.0 level excluded from the approved list.
fn nsa_cnsa2() -> (p: Policy)
    ensures
        p.meta.name@ == "nsa-cnsa2"@,
        p.meta.source_url@ == preset_source_url("nsa-cnsa2"@),
        nist_default_facts(p),
        p.deprecation.policy_disallowed@.map_values(|s: String| s@) == preset_disallowed("nsa-cnsa2"@),
        !p.deprecation.aes_128_acceptable && !p.deprecation.aes_192_acceptable && !p.deprecation.sha_256_acceptable,
{
    let mut p = nist_default();
    p.meta = Meta {
        name: owned("nsa-cnsa2"),
        display_name: owned("NSA CNSA 2.0"),
        source_url: owned("https://media.defense.gov/2022/Sep/07/2003071834/-1/-1/0/CSA_CNSA_2.0_ALGORITHMS_.PDF"),
        notes: owned("National security systems"),
    };
    p.deprecation.aes_128_acceptable = false;
    p.deprecation.aes_192_acceptable = false;
    p.deprecation.sha_256_acceptable = false;
    let excluded = vec!["aes-128-gcm", "sha-256", "ml-kem-512", "ml-kem-768", "ml-dsa-44", "ml-dsa-65", "fn-dsa-512"];
    assert(excluded@.map_values(|s: &str| s@) =~= seq!["aes-128-gcm"@, "sha-256"@, "ml-kem-512"@, "ml-kem-768"@, "ml-dsa-44"@, "ml-dsa-65"@, "fn-dsa-512"@]);
    p.deprecation.policy_disallowed = strings(excluded);
    p
}

} // verus!
