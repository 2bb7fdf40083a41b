//! Findings — what scanners emit and what the risk engine consumes — and the
//! non-fatal warnings a scan collects on the way.
use vstd::prelude::*;

verus! {

/// A code/network/cert location.
#[derive(Debug, Clone)]
pub struct Location {
    /// File path (relative for source scans), host:port for net, cert path for certs.
    pub location: String,
    /// 1-based line number when available.
    pub line: Option<u32>,
    /// Byte offset when available.
    pub offset: Option<u32>,
    /// API symbol matched (e.g. `rsa.GenerateKey`).
    pub symbol: Option<String>,
    /// Sanitised snippet for the report.
    pub snippet: Option<String>,
}

/// Detection confidence — how the algorithm-id was derived.
#[derive(Debug, Clone, Copy, PartialEq, Eq, Structural)]
pub enum Confidence {
    /// Literal argument captured (e.g. `rsa.GenerateKey(rand.Reader, 2048)`).
    LiteralArg,
    /// Type-name match (Rust paths, Java fully-qualified names).
    TypeName,
    /// Value flowed in from a const/var; partial propagation.
    Variable,
    /// Algorithm chosen via runtime string lookup.
    StringTable,
    /// Fallback when nothing else fits.
    Unknown,
}

/// Site-level syntactic context for a match: where in the syntax tree a
/// match was found. Classify rules can opt in or out per site context.
#[derive(Debug, Clone, Copy, PartialEq, Eq, Hash, Structural)]
pub enum SiteContext {
    /// An argument to a call expression — the operational position.
    Call,
    /// A const or var declaration value.
    StringConstant,
    /// A value in a struct / composite literal.
    StructLiteral,
    /// The value side of a map literal entry, or a map insertion call.
    MapEntry,
    /// An argument to a test-framework assertion or helper.
    TestAssertion,
    /// An argument to a call that retrieves a registry entry by name.
    RegistryLookup,
    /// An operand of an equality test.
    Comparison,
    /// An element of a supported-algorithm collection.
    CollectionElement,
    /// Anything else.
    Default,
}

/// Usage context — drives the `UsageContext` axis of the score.
#[derive(Debug, Clone, Copy, PartialEq, Eq, Structural)]
pub enum UsageContext {
    KeyEstablishmentLongLived,
    KeyEstablishmentEphemeral,
    DataAtRestEncryption,
    SignatureLongLived,
    SignatureEphemeral,
    AuthenticationOnly,
    Hashing,
    Unknown,
}

/// Exposure axis.
#[derive(Debug, Clone, Copy, PartialEq, Eq, Structural)]
pub enum Exposure {
    PublicInternet,
    InternalService,
    LocalOnly,
}

/// Severity band.
#[derive(Debug, Clone, Copy, PartialEq, Eq, Structural)]
pub enum Severity {
    Critical,
    High,
    Medium,
    Low,
    Safe,
}

/// One cryptographic finding.
#[derive(Debug, Clone)]
pub struct Finding {
    /// SARIF rule id (CRYPTO-NNN).
    pub rule_id: String,
    /// Canonical algorithm-id from the algorithm table.
    pub algorithm_id: String,
    /// Where it was found.
    pub location: Location,
    /// Why the scanner reports this finding.
    pub message: String,
    /// Detection confidence at extraction time.
    pub confidence: Confidence,
    /// How the algorithm is being used.
    pub usage_context: UsageContext,
    /// Exposure assessment.
    pub exposure: Exposure,
    /// Shelf-life bucket name resolved from policy.shelf_life_tags.
    pub shelf_life_bucket: String,
    /// True if this finding meets the HNDL flagging criteria.
    pub hndl_critical: bool,
}

/// Category of a non-fatal scan warning.
#[derive(Debug, Clone, Copy, PartialEq, Eq, Hash, Structural)]
pub enum ScanWarningKind {
    /// Could not read the file (permission denied, broken symlink, etc.).
    UnreadableFile,
    /// Parse failed for a file whose extension we claimed to support.
    ParseError,
    /// Directory walk hit an unrecoverable entry.
    WalkError,
    /// A dependency manifest in a known ecosystem failed to parse.
    DepManifestError,
    /// A certificate file (PEM/DER) failed to decode.
    CertDecodeError,
    /// Anything else that doesn't fit above but shouldn't kill the scan.
    Other,
}

/// One non-fatal warning surfaced during a scan.
#[derive(Debug, Clone)]
pub struct ScanWarning {
    pub kind: ScanWarningKind,
    /// File or path the warning concerns. None if not file-scoped.
    pub path: Option<String>,
    /// Human-readable explanation. Short — one line.
    pub message: String,
}

impl ScanWarning {
    pub fn new(kind: ScanWarningKind, path: Option<String>, message: String) -> (w: ScanWarning)
        ensures
            w.kind == kind,
            w.path == path,
            w.message == message,
    {
        ScanWarning { kind, path, message }
    }
}

} // verus!
