use seawall::algorithms::AlgorithmTable;
use seawall::classify::ScanError;
use seawall::extract::{ArgMap, ArgValue, RawMatch};
use seawall::findings::{ScanWarningKind, SiteContext};
use seawall::rules::Language;
use seawall::scanner::{scan_warning_for, Scanner};
use seawall::sitecontext::{classify_site_context, is_call_asserted_to_fail, Frame};

fn frame(kind: &str) -> Frame {
    Frame {
        kind: kind.to_string(),
        call_callee: None,
        call_consumed: false,
        own_callee: None,
        operator: None,
        first_named_kind: None,
        property: None,
        with_raises: false,
    }
}

fn args_of(callee: &str) -> Frame {
    let mut f = frame("argument_list");
    f.call_callee = Some(callee.to_string());
    f
}

#[test]
fn plain_call_argument() {
    let chain = vec![args_of("rsa.GenerateKey"), frame("call_expression"), frame("function_declaration")];
    assert_eq!(classify_site_context(&chain, Language::Go), SiteContext::Call);
}

#[test]
fn map_entry_wins_over_everything() {
    let chain = vec![frame("keyed_element"), args_of("assert.Equal")];
    assert_eq!(classify_site_context(&chain, Language::Go), SiteContext::MapEntry);
    let put = vec![args_of("table.put")];
    assert_eq!(classify_site_context(&put, Language::Java), SiteContext::MapEntry);
}

#[test]
fn test_assertions_registry_lookups_and_comparisons() {
    assert_eq!(classify_site_context(&vec![args_of("assert.Equal")], Language::Go), SiteContext::TestAssertion);
    assert_eq!(classify_site_context(&vec![args_of("jwa.LookupSignatureAlgorithm")], Language::Go), SiteContext::RegistryLookup);
    let mut consumed = args_of("getMethod");
    consumed.call_callee = Some("lookupMethod".to_string());
    consumed.call_consumed = true;
    assert_eq!(classify_site_context(&vec![consumed], Language::Go), SiteContext::Call);
    let mut eq = frame("binary_expression");
    eq.operator = Some("==".to_string());
    assert_eq!(classify_site_context(&vec![eq], Language::Go), SiteContext::Comparison);
    let mut equals = frame("method_invocation");
    equals.own_callee = Some("alg.equals".to_string());
    assert_eq!(classify_site_context(&vec![frame("field_access"), equals], Language::Java), SiteContext::Comparison);
}

#[test]
fn collections_structs_and_constants() {
    assert_eq!(classify_site_context(&vec![frame("array_initializer")], Language::Java), SiteContext::CollectionElement);
    assert_eq!(classify_site_context(&vec![args_of("Arrays.asList")], Language::Java), SiteContext::CollectionElement);
    let mut slice = frame("composite_literal");
    slice.first_named_kind = Some("slice_type".to_string());
    let chain = vec![frame("literal_element"), frame("literal_value"), slice.clone(), args_of("WithValidMethods")];
    assert_eq!(classify_site_context(&chain, Language::Go), SiteContext::Default);
    let mut strukt = frame("composite_literal");
    strukt.first_named_kind = Some("type_identifier".to_string());
    let chain = vec![frame("literal_element"), frame("literal_value"), strukt];
    assert_eq!(classify_site_context(&chain, Language::Go), SiteContext::StructLiteral);
    let chain = vec![frame("expression_list"), frame("const_spec"), frame("const_declaration")];
    assert_eq!(classify_site_context(&chain, Language::Go), SiteContext::StringConstant);
    let chain = vec![frame("literal_element"), frame("literal_value"), slice, frame("var_spec")];
    assert_eq!(classify_site_context(&chain, Language::Go), SiteContext::Default);
    assert_eq!(classify_site_context(&vec![], Language::Go), SiteContext::Default);
}

#[test]
fn the_walk_stops_at_six_frames_and_at_a_function_body() {
    let mut far = vec![frame("a"), frame("b"), frame("c"), frame("d"), frame("e"), frame("f")];
    far.push(frame("keyed_element"));
    assert_eq!(classify_site_context(&far, Language::Go), SiteContext::Default);
    let stopped = vec![frame("x"), frame("function_declaration"), frame("keyed_element")];
    assert_eq!(classify_site_context(&stopped, Language::Go), SiteContext::Default);
}

#[test]
fn python_raises_blocks() {
    let mut with = frame("with_statement");
    with.with_raises = true;
    let chain = vec![frame("expression_statement"), frame("block"), with];
    assert!(is_call_asserted_to_fail(&chain, Language::Python));
    let mut upper = frame("with_statement");
    upper.with_raises = true;
    assert!(is_call_asserted_to_fail(&vec![upper.clone()], Language::Python));
    assert!(!is_call_asserted_to_fail(&vec![upper], Language::Go));
    let mut open = frame("with_statement");
    open.with_raises = false;
    assert!(!is_call_asserted_to_fail(&vec![open], Language::Python));
}

#[test]
fn js_throw_expectations() {
    let mut expect = frame("call_expression");
    expect.own_callee = Some("expect".to_string());
    let mut to = frame("member_expression");
    to.property = Some("to".to_string());
    let mut throw = frame("member_expression");
    throw.property = Some("throw".to_string());
    let chain = vec![frame("arrow_function"), frame("arguments"), expect.clone(), to.clone(), throw.clone()];
    assert!(is_call_asserted_to_fail(&chain, Language::JavaScript));
    let mut to_be = frame("member_expression");
    to_be.property = Some("toBe".to_string());
    let chain = vec![frame("arguments"), expect.clone(), to_be, frame("call_expression")];
    assert!(!is_call_asserted_to_fail(&chain, Language::TypeScript));
    let mut to_throw = frame("member_expression");
    to_throw.property = Some("toThrow".to_string());
    assert!(is_call_asserted_to_fail(&vec![expect, to_throw], Language::TypeScript));
}

fn raw(api: &str, bits: i64) -> RawMatch {
    let mut args = ArgMap::new();
    args.insert("bits".to_string(), ArgValue::Int(bits));
    RawMatch {
        api: api.to_string(),
        args,
        line: 3,
        offset: 0,
        symbol: "rsa.GenerateKey".to_string(),
        snippet: "rsa.GenerateKey(rand.Reader, 2048)".to_string(),
        site_context: SiteContext::Call,
    }
}

#[test]
fn a_file_of_matches_becomes_findings() {
    let scanner = Scanner::with_builtins(AlgorithmTable::from_builtin().unwrap()).expect("scanner");
    let matches = vec![
        raw("crypto/rsa.GenerateKey", 1024),
        raw("fmt.Println", 1),
        raw("crypto/rsa.GenerateKey", 2048),
        raw("crypto/rsa.GenerateKey", 4096),
    ];
    let mut out = Vec::new();
    scanner.classify_file(Language::Go, &matches, "main.go", &vec![], &mut out).expect("no rule errs");
    let ids: Vec<&str> = out.iter().map(|f| f.rule_id.as_str()).collect();
    assert_eq!(ids, vec!["CRYPTO-001", "CRYPTO-002", "CRYPTO-004"]);
    assert_eq!(out[0].algorithm_id, "rsa-undersized");
    assert_eq!(out[0].message, "RSA key of 1024 bits is below the 2048-bit floor");
    assert!(!scanner.rules_for(Language::TypeScript).classify.is_empty());
}

#[test]
fn per_file_errors_become_warnings() {
    let w = scan_warning_for("a.go", &ScanError::Io("denied".to_string()));
    assert_eq!(w.kind, ScanWarningKind::UnreadableFile);
    assert_eq!(w.path.as_deref(), Some("a.go"));
    assert_eq!(w.message, "I/O: denied");
    let w = scan_warning_for("big.js", &ScanError::FileTooLarge { path: "big.js".to_string(), size: 20000000 });
    assert_eq!(w.kind, ScanWarningKind::UnreadableFile);
    assert_eq!(w.message, "file too large to scan: big.js (20000000 bytes)");
    let w = scan_warning_for("x.py", &ScanError::GrammarLoad(Language::Python));
    assert_eq!(w.kind, ScanWarningKind::ParseError);
    assert_eq!(w.message, "tree-sitter language load failed for Python");
    assert_eq!(scan_warning_for("y", &ScanError::UnknownAlgorithm("z".to_string())).kind, ScanWarningKind::Other);
}
