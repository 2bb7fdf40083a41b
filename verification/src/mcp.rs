//! The MCP server's decisions: which handler a JSON-RPC method reaches,
//! whether a client's contract version is accepted, and the tools the
//! server lists, each with its input schema as JSON text.
use vstd::prelude::*;
use crate::text::{owned, push_text, str_eq};

verus! {

/// The contract version this server speaks.
pub const CONTRACT_VERSION: &'static str = "0.1.0";

/// The MCP protocol version this server reports.
pub const PROTOCOL_VERSION: &'static str = "2024-11-05";

/// Where a JSON-RPC method goes.
#[derive(Debug, Clone, PartialEq, Eq)]
pub enum Route {
    /// `initialize`.
    Initialize,
    /// `list-tools` / `listTools`.
    ListTools,
    /// `call-tool` / `callTool`: the verb is named in the params.
    CallTool,
    /// Any other method names a verb directly.
    Verb,
}

pub open spec fn route_of(method: Seq<char>) -> Route {
    if method == "initialize"@ {
        Route::Initialize
    } else if method == "list-tools"@ || method == "listTools"@ {
        Route::ListTools
    } else if method == "call-tool"@ || method == "callTool"@ {
        Route::CallTool
    } else {
        Route::Verb
    }
}

/// The route a JSON-RPC method takes.
pub fn route(method: &str) -> (r: Route)
    ensures
        r == route_of(method@),
{
    if str_eq(method, "initialize") {
        Route::Initialize
    } else if str_eq(method, "list-tools") || str_eq(method, "listTools") {
        Route::ListTools
    } else if str_eq(method, "call-tool") || str_eq(method, "callTool") {
        Route::CallTool
    } else {
        Route::Verb
    }
}

/// The verbs the server knows.
#[derive(Debug, Clone, PartialEq, Eq)]
pub enum Verb {
    ScanSource,
    ScanCerts,
    ScanDeps,
    ScanNetwork,
    EmitCbom,
    EmitSarif,
    ValidateCbom,
    RunAcvpKats,
    QueryFindings,
    GetScanResults,
    GetCapabilities,
}

pub open spec fn verb_named(name: Seq<char>) -> Option<Verb> {
    if name == "scan_source"@ {
        Some(Verb::ScanSource)
    } else if name == "scan_certs"@ {
        Some(Verb::ScanCerts)
    } else if name == "scan_deps"@ {
        Some(Verb::ScanDeps)
    } else if name == "scan_network"@ {
        Some(Verb::ScanNetwork)
    } else if name == "emit_cbom"@ {
        Some(Verb::EmitCbom)
    } else if name == "emit_sarif"@ {
        Some(Verb::EmitSarif)
    } else if name == "validate_cbom"@ {
        Some(Verb::ValidateCbom)
    } else if name == "run_acvp_kats"@ {
        Some(Verb::RunAcvpKats)
    } else if name == "query_findings"@ {
        Some(Verb::QueryFindings)
    } else if name == "get_scan_results"@ {
        Some(Verb::GetScanResults)
    } else if name == "get_capabilities"@ {
        Some(Verb::GetCapabilities)
    } else {
        None
    }
}

/// The name a verb goes by on the wire: its method and tool name.
pub open spec fn verb_title(v: Verb) -> Seq<char> {
    match v {
        Verb::ScanSource => "scan_source"@,
        Verb::ScanCerts => "scan_certs"@,
        Verb::ScanDeps => "scan_deps"@,
        Verb::ScanNetwork => "scan_network"@,
        Verb::EmitCbom => "emit_cbom"@,
        Verb::EmitSarif => "emit_sarif"@,
        Verb::ValidateCbom => "validate_cbom"@,
        Verb::RunAcvpKats => "run_acvp_kats"@,
        Verb::QueryFindings => "query_findings"@,
        Verb::GetScanResults => "get_scan_results"@,
        Verb::GetCapabilities => "get_capabilities"@,
    }
}

/// Every verb is selected by its own name and by no other: `scan_deps`
/// selects the dependency scan, `scan_certs` the certificate scan.
pub proof fn lemma_verb_names_select_their_verb(v: Verb, a: Seq<char>, b: Seq<char>)
    ensures
        verb_named(verb_title(v)) == Some(v),
        verb_named(a) == Some(v) ==> a == verb_title(v),
        verb_named(a) is Some && verb_named(a) == verb_named(b) ==> a == b,
{
    reveal_strlit("scan_source");
    reveal_strlit("scan_certs");
    reveal_strlit("scan_deps");
    reveal_strlit("scan_network");
    reveal_strlit("emit_cbom");
    reveal_strlit("emit_sarif");
    reveal_strlit("validate_cbom");
    reveal_strlit("run_acvp_kats");
    reveal_strlit("query_findings");
    reveal_strlit("get_scan_results");
    reveal_strlit("get_capabilities");
    assert("scan_source"@.len() == 11);
    assert("scan_source"@[0] == 's');
    assert("scan_source"@[1] == 'c');
    assert("scan_source"@[2] == 'a');
    assert("scan_source"@[3] == 'n');
    assert("scan_source"@[4] == '_');
    assert("scan_source"@[5] == 's');
    assert("scan_source"@[6] == 'o');
    assert("scan_source"@[7] == 'u');
    assert("scan_source"@[8] == 'r');
    assert("scan_source"@[9] == 'c');
    assert("scan_source"@[10] == 'e');
    assert("scan_certs"@.len() == 10);
    assert("scan_certs"@[0] == 's');
    assert("scan_certs"@[1] == 'c');
    assert("scan_certs"@[2] == 'a');
    assert("scan_certs"@[3] == 'n');
    assert("scan_certs"@[4] == '_');
    assert("scan_certs"@[5] == 'c');
    assert("scan_certs"@[6] == 'e');
    assert("scan_certs"@[7] == 'r');
    assert("scan_certs"@[8] == 't');
    assert("scan_certs"@[9] == 's');
    assert("scan_deps"@.len() == 9);
    assert("scan_deps"@[0] == 's');
    assert("scan_deps"@[1] == 'c');
    assert("scan_deps"@[2] == 'a');
    assert("scan_deps"@[3] == 'n');
    assert("scan_deps"@[4] == '_');
    assert("scan_deps"@[5] == 'd');
    assert("scan_deps"@[6] == 'e');
    assert("scan_deps"@[7] == 'p');
    assert("scan_deps"@[8] == 's');
    assert("scan_network"@.len() == 12);
    assert("scan_network"@[0] == 's');
    assert("scan_network"@[1] == 'c');
    assert("scan_network"@[2] == 'a');
    assert("scan_network"@[3] == 'n');
    assert("scan_network"@[4] == '_');
    assert("scan_network"@[5] == 'n');
    assert("scan_network"@[6] == 'e');
    assert("scan_network"@[7] == 't');
    assert("scan_network"@[8] == 'w');
    assert("scan_network"@[9] == 'o');
    assert("scan_network"@[10] == 'r');
    assert("scan_network"@[11] == 'k');
    assert("emit_cbom"@.len() == 9);
    assert("emit_cbom"@[0] == 'e');
    assert("emit_cbom"@[1] == 'm');
    assert("emit_cbom"@[2] == 'i');
    assert("emit_cbom"@[3] == 't');
    assert("emit_cbom"@[4] == '_');
    assert("emit_cbom"@[5] == 'c');
    assert("emit_cbom"@[6] == 'b');
    assert("emit_cbom"@[7] == 'o');
    assert("emit_cbom"@[8] == 'm');
    assert("emit_sarif"@.len() == 10);
    assert("emit_sarif"@[0] == 'e');
    assert("emit_sarif"@[1] == 'm');
    assert("emit_sarif"@[2] == 'i');
    assert("emit_sarif"@[3] == 't');
    assert("emit_sarif"@[4] == '_');
    assert("emit_sarif"@[5] == 's');
    assert("emit_sarif"@[6] == 'a');
    assert("emit_sarif"@[7] == 'r');
    assert("emit_sarif"@[8] == 'i');
    assert("emit_sarif"@[9] == 'f');
    assert("validate_cbom"@.len() == 13);
    assert("validate_cbom"@[0] == 'v');
    assert("validate_cbom"@[1] == 'a');
    assert("validate_cbom"@[2] == 'l');
    assert("validate_cbom"@[3] == 'i');
    assert("validate_cbom"@[4] == 'd');
    assert("validate_cbom"@[5] == 'a');
    assert("validate_cbom"@[6] == 't');
    assert("validate_cbom"@[7] == 'e');
    assert("validate_cbom"@[8] == '_');
    assert("validate_cbom"@[9] == 'c');
    assert("validate_cbom"@[10] == 'b');
    assert("validate_cbom"@[11] == 'o');
    assert("validate_cbom"@[12] == 'm');
    assert("run_acvp_kats"@.len() == 13);
    assert("run_acvp_kats"@[0] == 'r');
    assert("run_acvp_kats"@[1] == 'u');
    assert("run_acvp_kats"@[2] == 'n');
    assert("run_acvp_kats"@[3] == '_');
    assert("run_acvp_kats"@[4] == 'a');
    assert("run_acvp_kats"@[5] == 'c');
    assert("run_acvp_kats"@[6] == 'v');
    assert("run_acvp_kats"@[7] == 'p');
    assert("run_acvp_kats"@[8] == '_');
    assert("run_acvp_kats"@[9] == 'k');
    assert("run_acvp_kats"@[10] == 'a');
    assert("run_acvp_kats"@[11] == 't');
    assert("run_acvp_kats"@[12] == 's');
    assert("query_findings"@.len() == 14);
    assert("query_findings"@[0] == 'q');
    assert("query_findings"@[1] == 'u');
    assert("query_findings"@[2] == 'e');
    assert("query_findings"@[3] == 'r');
    assert("query_findings"@[4] == 'y');
    assert("query_findings"@[5] == '_');
    assert("query_findings"@[6] == 'f');
    assert("query_findings"@[7] == 'i');
    assert("query_findings"@[8] == 'n');
    assert("query_findings"@[9] == 'd');
    assert("query_findings"@[10] == 'i');
    assert("query_findings"@[11] == 'n');
    assert("query_findings"@[12] == 'g');
    assert("query_findings"@[13] == 's');
    assert("get_scan_results"@.len() == 16);
    assert("get_scan_results"@[0] == 'g');
    assert("get_scan_results"@[1] == 'e');
    assert("get_scan_results"@[2] == 't');
    assert("get_scan_results"@[3] == '_');
    assert("get_scan_results"@[4] == 's');
    assert("get_scan_results"@[5] == 'c');
    assert("get_scan_results"@[6] == 'a');
    assert("get_scan_results"@[7] == 'n');
    assert("get_scan_results"@[8] == '_');
    assert("get_scan_results"@[9] == 'r');
    assert("get_scan_results"@[10] == 'e');
    assert("get_scan_results"@[11] == 's');
    assert("get_scan_results"@[12] == 'u');
    assert("get_scan_results"@[13] == 'l');
    assert("get_scan_results"@[14] == 't');
    assert("get_scan_results"@[15] == 's');
    assert("get_capabilities"@.len() == 16);
    assert("get_capabilities"@[0] == 'g');
    assert("get_capabilities"@[1] == 'e');
    assert("get_capabilities"@[2] == 't');
    assert("get_capabilities"@[3] == '_');
    assert("get_capabilities"@[4] == 'c');
    assert("get_capabilities"@[5] == 'a');
    assert("get_capabilities"@[6] == 'p');
    assert("get_capabilities"@[7] == 'a');
    assert("get_capabilities"@[8] == 'b');
    assert("get_capabilities"@[9] == 'i');
    assert("get_capabilities"@[10] == 'l');
    assert("get_capabilities"@[11] == 'i');
    assert("get_capabilities"@[12] == 't');
    assert("get_capabilities"@[13] == 'i');
    assert("get_capabilities"@[14] == 'e');
    assert("get_capabilities"@[15] == 's');
}

/// A name that is no verb's own name selects no verb.
pub proof fn lemma_other_names_select_no_verb(a: Seq<char>)
    ensures
        (forall|v: Verb| a != #[trigger] verb_title(v)) ==> verb_named(a) is None,
{
    if verb_named(a) is Some {
        lemma_verb_names_select_their_verb(verb_named(a)->0, a, a);
        assert(a == verb_title(verb_named(a)->0));
    }
}

/// Every tool the server lists is a verb it serves, under the tool's name,
/// and no two listed tools select the same verb.
pub proof fn lemma_listed_tools_are_verbs(allow_network: bool, i: int, j: int)
    requires
        0 <= i < j < (if allow_network { base_tools().push(network_tool()) } else { base_tools() }).len(),
    ensures
        ({
            let ts = if allow_network { base_tools().push(network_tool()) } else { base_tools() };
            &&& verb_named(ts[i].0) is Some
            &&& verb_named(ts[j].0) is Some
            &&& verb_named(ts[i].0) != verb_named(ts[j].0)
        }),
{
    let ts = if allow_network { base_tools().push(network_tool()) } else { base_tools() };
    reveal_strlit("scan_source");
    reveal_strlit("scan_certs");
    reveal_strlit("scan_deps");
    reveal_strlit("scan_network");
    reveal_strlit("emit_cbom");
    reveal_strlit("emit_sarif");
    reveal_strlit("validate_cbom");
    reveal_strlit("run_acvp_kats");
    reveal_strlit("query_findings");
    reveal_strlit("get_scan_results");
    reveal_strlit("get_capabilities");
    assert("scan_source"@.len() == 11);
    assert("scan_source"@[0] == 's');
    assert("scan_source"@[1] == 'c');
    assert("scan_source"@[2] == 'a');
    assert("scan_source"@[3] == 'n');
    assert("scan_source"@[4] == '_');
    assert("scan_source"@[5] == 's');
    assert("scan_source"@[6] == 'o');
    assert("scan_source"@[7] == 'u');
    assert("scan_source"@[8] == 'r');
    assert("scan_source"@[9] == 'c');
    assert("scan_source"@[10] == 'e');
    assert("scan_certs"@.len() == 10);
    assert("scan_certs"@[0] == 's');
    assert("scan_certs"@[1] == 'c');
    assert("scan_certs"@[2] == 'a');
    assert("scan_certs"@[3] == 'n');
    assert("scan_certs"@[4] == '_');
    assert("scan_certs"@[5] == 'c');
    assert("scan_certs"@[6] == 'e');
    assert("scan_certs"@[7] == 'r');
    assert("scan_certs"@[8] == 't');
    assert("scan_certs"@[9] == 's');
    assert("scan_deps"@.len() == 9);
    assert("scan_deps"@[0] == 's');
    assert("scan_deps"@[1] == 'c');
    assert("scan_deps"@[2] == 'a');
    assert("scan_deps"@[3] == 'n');
    assert("scan_deps"@[4] == '_');
    assert("scan_deps"@[5] == 'd');
    assert("scan_deps"@[6] == 'e');
    assert("scan_deps"@[7] == 'p');
    assert("scan_deps"@[8] == 's');
    assert("scan_network"@.len() == 12);
    assert("scan_network"@[0] == 's');
    assert("scan_network"@[1] == 'c');
    assert("scan_network"@[2] == 'a');
    assert("scan_network"@[3] == 'n');
    assert("scan_network"@[4] == '_');
    assert("scan_network"@[5] == 'n');
    assert("scan_network"@[6] == 'e');
    assert("scan_network"@[7] == 't');
    assert("scan_network"@[8] == 'w');
    assert("scan_network"@[9] == 'o');
    assert("scan_network"@[10] == 'r');
    assert("scan_network"@[11] == 'k');
    assert("emit_cbom"@.len() == 9);
    assert("emit_cbom"@[0] == 'e');
    assert("emit_cbom"@[1] == 'm');
    assert("emit_cbom"@[2] == 'i');
    assert("emit_cbom"@[3] == 't');
    assert("emit_cbom"@[4] == '_');
    assert("emit_cbom"@[5] == 'c');
    assert("emit_cbom"@[6] == 'b');
    assert("emit_cbom"@[7] == 'o');
    assert("emit_cbom"@[8] == 'm');
    assert("emit_sarif"@.len() == 10);
    assert("emit_sarif"@[0] == 'e');
    assert("emit_sarif"@[1] == 'm');
    assert("emit_sarif"@[2] == 'i');
    assert("emit_sarif"@[3] == 't');
    assert("emit_sarif"@[4] == '_');
    assert("emit_sarif"@[5] == 's');
    assert("emit_sarif"@[6] == 'a');
    assert("emit_sarif"@[7] == 'r');
    assert("emit_sarif"@[8] == 'i');
    assert("emit_sarif"@[9] == 'f');
    assert("validate_cbom"@.len() == 13);
    assert("validate_cbom"@[0] == 'v');
    assert("validate_cbom"@[1] == 'a');
    assert("validate_cbom"@[2] == 'l');
    assert("validate_cbom"@[3] == 'i');
    assert("validate_cbom"@[4] == 'd');
    assert("validate_cbom"@[5] == 'a');
    assert("validate_cbom"@[6] == 't');
    assert("validate_cbom"@[7] == 'e');
    assert("validate_cbom"@[8] == '_');
    assert("validate_cbom"@[9] == 'c');
    assert("validate_cbom"@[10] == 'b');
    assert("validate_cbom"@[11] == 'o');
    assert("validate_cbom"@[12] == 'm');
    assert("run_acvp_kats"@.len() == 13);
    assert("run_acvp_kats"@[0] == 'r');
    assert("run_acvp_kats"@[1] == 'u');
    assert("run_acvp_kats"@[2] == 'n');
    assert("run_acvp_kats"@[3] == '_');
    assert("run_acvp_kats"@[4] == 'a');
    assert("run_acvp_kats"@[5] == 'c');
    assert("run_acvp_kats"@[6] == 'v');
    assert("run_acvp_kats"@[7] == 'p');
    assert("run_acvp_kats"@[8] == '_');
    assert("run_acvp_kats"@[9] == 'k');
    assert("run_acvp_kats"@[10] == 'a');
    assert("run_acvp_kats"@[11] == 't');
    assert("run_acvp_kats"@[12] == 's');
    assert("query_findings"@.len() == 14);
    assert("query_findings"@[0] == 'q');
    assert("query_findings"@[1] == 'u');
    assert("query_findings"@[2] == 'e');
    assert("query_findings"@[3] == 'r');
    assert("query_findings"@[4] == 'y');
    assert("query_findings"@[5] == '_');
    assert("query_findings"@[6] == 'f');
    assert("query_findings"@[7] == 'i');
    assert("query_findings"@[8] == 'n');
    assert("query_findings"@[9] == 'd');
    assert("query_findings"@[10] == 'i');
    assert("query_findings"@[11] == 'n');
    assert("query_findings"@[12] == 'g');
    assert("query_findings"@[13] == 's');
    assert("get_scan_results"@.len() == 16);
    assert("get_scan_results"@[0] == 'g');
    assert("get_scan_results"@[1] == 'e');
    assert("get_scan_results"@[2] == 't');
    assert("get_scan_results"@[3] == '_');
    assert("get_scan_results"@[4] == 's');
    assert("get_scan_results"@[5] == 'c');
    assert("get_scan_results"@[6] == 'a');
    assert("get_scan_results"@[7] == 'n');
    assert("get_scan_results"@[8] == '_');
    assert("get_scan_results"@[9] == 'r');
    assert("get_scan_results"@[10] == 'e');
    assert("get_scan_results"@[11] == 's');
    assert("get_scan_results"@[12] == 'u');
    assert("get_scan_results"@[13] == 'l');
    assert("get_scan_results"@[14] == 't');
    assert("get_scan_results"@[15] == 's');
    assert("get_capabilities"@.len() == 16);
    assert("get_capabilities"@[0] == 'g');
    assert("get_capabilities"@[1] == 'e');
    assert("get_capabilities"@[2] == 't');
    assert("get_capabilities"@[3] == '_');
    assert("get_capabilities"@[4] == 'c');
    assert("get_capabilities"@[5] == 'a');
    assert("get_capabilities"@[6] == 'p');
    assert("get_capabilities"@[7] == 'a');
    assert("get_capabilities"@[8] == 'b');
    assert("get_capabilities"@[9] == 'i');
    assert("get_capabilities"@[10] == 'l');
    assert("get_capabilities"@[11] == 'i');
    assert("get_capabilities"@[12] == 't');
    assert("get_capabilities"@[13] == 'i');
    assert("get_capabilities"@[14] == 'e');
    assert("get_capabilities"@[15] == 's');
    assert(ts.len() > 0 ==> ts[0].0 == "scan_source"@);
    assert(ts.len() > 1 ==> ts[1].0 == "scan_certs"@);
    assert(ts.len() > 2 ==> ts[2].0 == "scan_deps"@);
    assert(ts.len() > 3 ==> ts[3].0 == "emit_cbom"@);
    assert(ts.len() > 4 ==> ts[4].0 == "emit_sarif"@);
    assert(ts.len() > 5 ==> ts[5].0 == "validate_cbom"@);
    assert(ts.len() > 6 ==> ts[6].0 == "run_acvp_kats"@);
    assert(ts.len() > 7 ==> ts[7].0 == "query_findings"@);
    assert(ts.len() > 8 ==> ts[8].0 == "get_scan_results"@);
    assert(ts.len() > 9 ==> ts[9].0 == "get_capabilities"@);
    assert(ts.len() > 10 ==> ts[10].0 == "scan_network"@);
    assert forall|k: int| 0 <= k < ts.len() implies verb_named(#[trigger] ts[k].0) is Some by {
        if k == 0 {
            assert(verb_named(ts[0].0) is Some);
        }
        if k == 1 {
            assert(verb_named(ts[1].0) is Some);
        }
        if k == 2 {
            assert(verb_named(ts[2].0) is Some);
        }
        if k == 3 {
            assert(verb_named(ts[3].0) is Some);
        }
        if k == 4 {
            assert(verb_named(ts[4].0) is Some);
        }
        if k == 5 {
            assert(verb_named(ts[5].0) is Some);
        }
        if k == 6 {
            assert(verb_named(ts[6].0) is Some);
        }
        if k == 7 {
            assert(verb_named(ts[7].0) is Some);
        }
        if k == 8 {
            assert(verb_named(ts[8].0) is Some);
        }
        if k == 9 {
            assert(verb_named(ts[9].0) is Some);
        }
        if k == 10 {
            assert(verb_named(ts[10].0) is Some);
        }
    }
    assert(ts[i].0 != ts[j].0);
    lemma_verb_names_select_their_verb(verb_named(ts[i].0)->0, ts[i].0, ts[j].0);
}

/// The verb a name selects, if the server has one by that name.
pub fn verb_for(name: &str) -> (r: Option<Verb>)
    ensures
        r == verb_named(name@),
{
    if str_eq(name, "scan_source") {
        Some(Verb::ScanSource)
    } else if str_eq(name, "scan_certs") {
        Some(Verb::ScanCerts)
    } else if str_eq(name, "scan_deps") {
        Some(Verb::ScanDeps)
    } else if str_eq(name, "scan_network") {
        Some(Verb::ScanNetwork)
    } else if str_eq(name, "emit_cbom") {
        Some(Verb::EmitCbom)
    } else if str_eq(name, "emit_sarif") {
        Some(Verb::EmitSarif)
    } else if str_eq(name, "validate_cbom") {
        Some(Verb::ValidateCbom)
    } else if str_eq(name, "run_acvp_kats") {
        Some(Verb::RunAcvpKats)
    } else if str_eq(name, "query_findings") {
        Some(Verb::QueryFindings)
    } else if str_eq(name, "get_scan_results") {
        Some(Verb::GetScanResults)
    } else if str_eq(name, "get_capabilities") {
        Some(Verb::GetCapabilities)
    } else {
        None
    }
}

/// The message an unknown verb is refused with.
pub fn unknown_method_message(verb: &str) -> (r: String)
    ensures
        r@ == "unknown method: "@ + verb@,
{
    let mut s = owned("unknown method: ");
    push_text(&mut s, verb);
    s
}

/// A client's contract version is accepted when it gives none or gives
/// this server's; otherwise the refusal message.
pub fn check_contract_version(requested: Option<&str>) -> (r: Result<(), String>)
    ensures
        match requested {
            None => r is Ok,
            Some(cv) => if cv@ == CONTRACT_VERSION@ {
                r is Ok
            } else {
                r matches Err(m) && m@ == "contractVersion mismatch: server is 0.1.0, client asked for "@ + cv@
            },
        },
{
    match requested {
        None => Ok(()),
        Some(cv) => {
            if str_eq(cv, CONTRACT_VERSION) {
                Ok(())
            } else {
                let mut m = owned("contractVersion mismatch: server is 0.1.0, client asked for ");
                push_text(&mut m, cv);
                Err(m)
            }
        },
    }
}

/// The one mode the KAT runner accepts: it compares supplied outputs with
/// pinned vectors and runs nothing.
pub const SUPPORTED_KAT_MODE: &'static str = "vectorsOnly";

/// A KAT run's mode (`vectorsOnly` when not given) is accepted only when
/// it is `vectorsOnly`; otherwise the refusal message.
pub fn check_kat_mode(mode: Option<&str>) -> (r: Result<(), String>)
    ensures
        match mode {
            None => r is Ok,
            Some(m) => if m@ == SUPPORTED_KAT_MODE@ {
                r is Ok
            } else {
                r matches Err(e) && e@ == "run_acvp_kats only supports mode=\"vectorsOnly\" (P4: no code execution). Got \""@
                    + m@ + "\""@
            },
        },
{
    match mode {
        None => Ok(()),
        Some(m) => {
            if str_eq(m, SUPPORTED_KAT_MODE) {
                Ok(())
            } else {
                let mut e = owned("run_acvp_kats only supports mode=\"vectorsOnly\" (P4: no code execution). Got \"");
                push_text(&mut e, m);
                push_text(&mut e, "\"");
                Err(e)
            }
        },
    }
}

/// One tool the server lists: its name, its description and its input
/// schema as JSON text.
#[derive(Debug, Clone, Copy)]
pub struct ToolDef {
    pub name: &'static str,
    pub description: &'static str,
    pub input_schema: &'static str,
}

pub open spec fn tool_view(t: ToolDef) -> (Seq<char>, Seq<char>, Seq<char>) {
    (t.name@, t.description@, t.input_schema@)
}

/// The tools every server lists, in order.
pub open spec fn base_tools() -> Seq<(Seq<char>, Seq<char>, Seq<char>)> {
    seq![
        ("scan_source"@, "Scan source code for cryptographic API usage"@,
            "{\"type\":\"object\",\"properties\":{\"path\":{\"type\":\"string\",\"description\":\"File or directory to scan\"},\"sessionMode\":{\"type\":\"string\",\"enum\":[\"blocking\",\"streaming\"],\"default\":\"blocking\"}},\"required\":[\"path\"]}"@),
        ("scan_certs"@, "Scan X.509 certificate files (PEM/DER)"@,
            "{\"type\":\"object\",\"properties\":{\"path\":{\"type\":\"string\"},\"host\":{\"type\":\"array\",\"items\":{\"type\":\"string\"}}}}"@),
        ("scan_deps"@, "Scan dependency manifests for cryptographic library usage"@,
            "{\"type\":\"object\",\"properties\":{\"path\":{\"type\":\"string\"}},\"required\":[\"path\"]}"@),
        ("emit_cbom"@, "Emit a CycloneDX CBOM from a scan session or inline findings"@,
            "{\"type\":\"object\",\"properties\":{\"scanId\":{\"type\":\"string\"},\"findings\":{\"type\":\"array\"},\"schemaVersion\":{\"type\":\"string\",\"enum\":[\"1.6\",\"1.7\"]},\"scanTarget\":{\"type\":\"string\"}}}"@),
        ("emit_sarif"@, "Emit SARIF 2.1.0 from a scan session"@,
            "{\"type\":\"object\",\"properties\":{\"scanId\":{\"type\":\"string\"},\"scanTarget\":{\"type\":\"string\"}},\"required\":[\"scanId\"]}"@),
        ("validate_cbom"@, "Validate a CycloneDX BOM JSON against the embedded schema"@,
            "{\"type\":\"object\",\"properties\":{\"cbom\":{\"type\":\"object\"},\"schemaVersion\":{\"type\":\"string\",\"enum\":[\"1.6\",\"1.7\"]}},\"required\":[\"cbom\"]}"@),
        ("run_acvp_kats"@, "Run ACVP known-answer test vectors (vectorsOnly mode — P4: no code execution)"@,
            "{\"type\":\"object\",\"properties\":{\"algorithm\":{\"type\":\"string\"},\"mode\":{\"type\":\"string\",\"enum\":[\"vectorsOnly\"]},\"vectors\":{\"type\":\"array\"}},\"required\":[\"algorithm\",\"vectors\"]}"@),
        ("query_findings"@, "Filter and group findings from a stored scan"@,
            "{\"type\":\"object\",\"properties\":{\"scanId\":{\"type\":\"string\"},\"filter\":{\"type\":\"object\"},\"groupBy\":{\"type\":\"string\"},\"sort\":{\"type\":\"string\"}},\"required\":[\"scanId\"]}"@),
        ("get_scan_results"@, "Paginate findings from a stored scan via opaque cursor"@,
            "{\"type\":\"object\",\"properties\":{\"scanId\":{\"type\":\"string\"},\"cursor\":{\"type\":\"string\"},\"pageSize\":{\"type\":\"integer\"}}}"@),
        ("get_capabilities"@, "Return server capabilities and runtime configuration"@,
            "{\"type\":\"object\",\"properties\":{}}"@),
    ]
}

/// The tool listed only when the network is allowed.
pub open spec fn network_tool() -> (Seq<char>, Seq<char>, Seq<char>) {
    ("scan_network"@, "Probe TLS endpoints (requires --allow-network)"@,
        "{\"type\":\"object\",\"properties\":{\"targets\":{\"type\":\"array\",\"items\":{\"type\":\"string\"},\"description\":\"host:port pairs to probe\"}},\"required\":[\"targets\"]}"@)
}

/// The tools the server lists: the base tools, and the network probe
/// only when the network is allowed.
pub fn build_tool_list(allow_network: bool) -> (r: Vec<ToolDef>)
    ensures
        r@.map_values(|t: ToolDef| tool_view(t)) == (if allow_network {
            base_tools().push(network_tool())
        } else {
            base_tools()
        }),
{
    let mut tools = vec![
        ToolDef {
            name: "scan_source",
            description: "Scan source code for cryptographic API usage",
            input_schema: "{\"type\":\"object\",\"properties\":{\"path\":{\"type\":\"string\",\"description\":\"File or directory to scan\"},\"sessionMode\":{\"type\":\"string\",\"enum\":[\"blocking\",\"streaming\"],\"default\":\"blocking\"}},\"required\":[\"path\"]}",
        },
        ToolDef {
            name: "scan_certs",
            description: "Scan X.509 certificate files (PEM/DER)",
            input_schema: "{\"type\":\"object\",\"properties\":{\"path\":{\"type\":\"string\"},\"host\":{\"type\":\"array\",\"items\":{\"type\":\"string\"}}}}",
        },
        ToolDef {
            name: "scan_deps",
            description: "Scan dependency manifests for cryptographic library usage",
            input_schema: "{\"type\":\"object\",\"properties\":{\"path\":{\"type\":\"string\"}},\"required\":[\"path\"]}",
        },
        ToolDef {
            name: "emit_cbom",
            description: "Emit a CycloneDX CBOM from a scan session or inline findings",
            input_schema: "{\"type\":\"object\",\"properties\":{\"scanId\":{\"type\":\"string\"},\"findings\":{\"type\":\"array\"},\"schemaVersion\":{\"type\":\"string\",\"enum\":[\"1.6\",\"1.7\"]},\"scanTarget\":{\"type\":\"string\"}}}",
        },
        ToolDef {
            name: "emit_sarif",
            description: "Emit SARIF 2.1.0 from a scan session",
            input_schema: "{\"type\":\"object\",\"properties\":{\"scanId\":{\"type\":\"string\"},\"scanTarget\":{\"type\":\"string\"}},\"required\":[\"scanId\"]}",
        },
        ToolDef {
            name: "validate_cbom",
            description: "Validate a CycloneDX BOM JSON against the embedded schema",
            input_schema: "{\"type\":\"object\",\"properties\":{\"cbom\":{\"type\":\"object\"},\"schemaVersion\":{\"type\":\"string\",\"enum\":[\"1.6\",\"1.7\"]}},\"required\":[\"cbom\"]}",
        },
        ToolDef {
            name: "run_acvp_kats",
            description: "Run ACVP known-answer test vectors (vectorsOnly mode — P4: no code execution)",
            input_schema: "{\"type\":\"object\",\"properties\":{\"algorithm\":{\"type\":\"string\"},\"mode\":{\"type\":\"string\",\"enum\":[\"vectorsOnly\"]},\"vectors\":{\"type\":\"array\"}},\"required\":[\"algorithm\",\"vectors\"]}",
        },
        ToolDef {
            name: "query_findings",
            description: "Filter and group findings from a stored scan",
            input_schema: "{\"type\":\"object\",\"properties\":{\"scanId\":{\"type\":\"string\"},\"filter\":{\"type\":\"object\"},\"groupBy\":{\"type\":\"string\"},\"sort\":{\"type\":\"string\"}},\"required\":[\"scanId\"]}",
        },
        ToolDef {
            name: "get_scan_results",
            description: "Paginate findings from a stored scan via opaque cursor",
            input_schema: "{\"type\":\"object\",\"properties\":{\"scanId\":{\"type\":\"string\"},\"cursor\":{\"type\":\"string\"},\"pageSize\":{\"type\":\"integer\"}}}",
        },
        ToolDef {
            name: "get_capabilities",
            description: "Return server capabilities and runtime configuration",
            input_schema: "{\"type\":\"object\",\"properties\":{}}",
        },
    ];
    assert(tools@.map_values(|t: ToolDef| tool_view(t)) =~= base_tools());
    if allow_network {
        let ghost before = tools@;
        tools.push(
            ToolDef {
                name: "scan_network",
                description: "Probe TLS endpoints (requires --allow-network)",
                input_schema: "{\"type\":\"object\",\"properties\":{\"targets\":{\"type\":\"array\",\"items\":{\"type\":\"string\"},\"description\":\"host:port pairs to probe\"}},\"required\":[\"targets\"]}",
            },
        );
        assert(tools@.map_values(|t: ToolDef| tool_view(t)) =~= before.map_values(|t: ToolDef| tool_view(t)).push(
            network_tool(),
        ));
    }
    tools
}

/// How a `scan_certs` request runs.
#[derive(Debug, Clone, Copy, PartialEq, Eq, Structural)]
pub enum CertScanMode {
    /// Read certificate files under a path.
    Files,
    /// Fetch certificates from TLS hosts over the network.
    Hosts,
}

/// The message a network request is refused with when the server was not
/// started with the network allowed.
pub open spec fn network_refusal() -> Seq<char> {
    "scan_certs host-mode requires --allow-network at process launch"@
}

/// The mode of a `scan_certs` request whose `host` parameter, when it is an
/// array, has `host_targets` entries: a non-empty host list asks for the
/// network, which is refused unless it is allowed; anything else reads
/// files.
pub open spec fn cert_scan_mode_of(host_targets: Option<usize>, allow_network: bool) -> Result<CertScanMode, Seq<char>> {
    match host_targets {
        Some(n) => if n > 0 {
            if allow_network {
                Ok(CertScanMode::Hosts)
            } else {
                Err(network_refusal())
            }
        } else {
            Ok(CertScanMode::Files)
        },
        None => Ok(CertScanMode::Files),
    }
}

/// Decide how a `scan_certs` request runs; this is checked before any other
/// work of the verb.
pub fn cert_scan_mode(host_targets: Option<usize>, allow_network: bool) -> (r: Result<CertScanMode, String>)
    ensures
        match r {
            Ok(m) => cert_scan_mode_of(host_targets, allow_network) == Ok::<CertScanMode, Seq<char>>(m),
            Err(e) => cert_scan_mode_of(host_targets, allow_network) == Err::<CertScanMode, Seq<char>>(e@),
        },
{
    match host_targets {
        Some(n) => {
            if n > 0 {
                if allow_network {
                    Ok(CertScanMode::Hosts)
                } else {
                    Err(owned("scan_certs host-mode requires --allow-network at process launch"))
                }
            } else {
                Ok(CertScanMode::Files)
            }
        },
        None => Ok(CertScanMode::Files),
    }
}

/// Without the network allowed, nothing the server offers reaches it: no
/// certificate request runs in host mode and the network probe is not
/// among the tools listed.
pub proof fn lemma_network_needs_the_flag(host_targets: Option<usize>)
    ensures
        cert_scan_mode_of(host_targets, false) != Ok::<CertScanMode, Seq<char>>(CertScanMode::Hosts),
        forall|i: int| 0 <= i < base_tools().len() ==> (#[trigger] base_tools()[i]).0 != network_tool().0,
{
    reveal_strlit("scan_network");
    reveal_strlit("scan_source");
    reveal_strlit("scan_certs");
    reveal_strlit("scan_deps");
    reveal_strlit("emit_cbom");
    reveal_strlit("emit_sarif");
    reveal_strlit("validate_cbom");
    reveal_strlit("run_acvp_kats");
    reveal_strlit("query_findings");
    reveal_strlit("get_scan_results");
    reveal_strlit("get_capabilities");
    assert forall|i: int| 0 <= i < base_tools().len() implies (#[trigger] base_tools()[i]).0 != network_tool().0 by {
        assert(base_tools()[i].0.len() != 12 || base_tools()[i].0[5] != network_tool().0[5]);
    }
}

/// The CycloneDX schema versions a BOM can be validated against.
#[derive(Debug, Clone, Copy, PartialEq, Eq, Structural)]
pub enum SchemaVersion {
    V1_6,
    V1_7,
}

/// The schema a `validate_cbom` request names: `1.6` or `1.7`, `1.7` when
/// it names none; any other version is refused.
pub open spec fn schema_version_of(requested: Option<Seq<char>>) -> Result<SchemaVersion, Seq<char>> {
    match requested {
        None => Ok(SchemaVersion::V1_7),
        Some(v) => if v == "1.6"@ {
            Ok(SchemaVersion::V1_6)
        } else if v == "1.7"@ {
            Ok(SchemaVersion::V1_7)
        } else {
            Err("unsupported schemaVersion `"@ + v + "` (use 1.6 or 1.7)"@)
        },
    }
}

/// The schema version a `validate_cbom` request asks for.
pub fn cbom_schema_version(requested: Option<&str>) -> (r: Result<SchemaVersion, String>)
    ensures
        match r {
            Ok(v) => schema_version_of(
                match requested {
                    Some(s) => Some(s@),
                    None => None,
                },
            ) == Ok::<SchemaVersion, Seq<char>>(v),
            Err(e) => schema_version_of(
                match requested {
                    Some(s) => Some(s@),
                    None => None,
                },
            ) == Err::<SchemaVersion, Seq<char>>(e@),
        },
{
    match requested {
        None => Ok(SchemaVersion::V1_7),
        Some(v) => {
            if str_eq(v, "1.6") {
                Ok(SchemaVersion::V1_6)
            } else if str_eq(v, "1.7") {
                Ok(SchemaVersion::V1_7)
            } else {
                let mut m = owned("unsupported schemaVersion `");
                m.append(v);
                m.append("` (use 1.6 or 1.7)");
                Err(m)
            }
        },
    }
}

impl SchemaVersion {
    /// The version as written in a BOM.
    pub fn as_str(self) -> (r: &'static str)
        ensures
            r@ == (match self {
                SchemaVersion::V1_6 => "1.6"@,
                SchemaVersion::V1_7 => "1.7"@,
            }),
    {
        match self {
            SchemaVersion::V1_6 => "1.6",
            SchemaVersion::V1_7 => "1.7",
        }
    }
}

} // verus!
