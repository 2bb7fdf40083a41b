use seawall::parse::{parse_source, run_extract};
use seawall::rules::Language;

#[test]
fn go_source_lays_out_parents_first() {
    let src = "package main\n\nfunc main() {\n\tx := 1  \n}\n";
    let t = parse_source(Language::Go, src.as_bytes()).expect("Go parses");
    assert!(t.len() > 5);
    let root = t.node(0);
    assert_eq!(root.kind, "source_file");
    assert_eq!(root.parent, None);
    assert_eq!(root.line, 1);
    assert_eq!(root.offset, 0);
    // The root's text is its first line.
    assert_eq!(root.text, "package main");
    let first = root.children[0];
    assert_eq!(t.node(first).kind, "package_clause");
    assert_eq!(t.node(first).parent, Some(0));
    // Every child index is above its parent and points back to it.
    for i in 0..t.len() {
        let n = t.node(i);
        for &c in &n.children {
            assert!(c > i);
            assert_eq!(t.node(c).parent, Some(i));
        }
        for &c in &n.named_children {
            assert!(n.children.contains(&c));
        }
        for (_, c) in &n.fields {
            assert!(n.children.contains(c));
        }
    }
    // A short variable declaration: its text loses the trailing blanks,
    // its line is 1-based and its field children are named.
    let decl = (0..t.len()).find(|&i| t.node(i).kind == "short_var_declaration").expect("x := 1");
    let d = t.node(decl);
    assert_eq!(d.text, "x := 1");
    assert_eq!(d.line, 4);
    assert_eq!(d.offset as usize, src.find("x :=").unwrap());
    let names: Vec<&str> = d.fields.iter().map(|(f, _)| f.as_str()).collect();
    assert_eq!(names, vec!["left", "right"]);
}

#[test]
fn a_multi_line_node_keeps_its_first_line() {
    let src = "def f():\n    return 1\n";
    let t = parse_source(Language::Python, src.as_bytes()).expect("Python parses");
    let f = (0..t.len()).find(|&i| t.node(i).kind == "function_definition").unwrap();
    assert_eq!(t.node(f).text, "def f():");
    assert_eq!(t.node(f).line, 1);
}

#[test]
fn every_language_parses_an_empty_file() {
    for l in [
        Language::Go,
        Language::Python,
        Language::Java,
        Language::JavaScript,
        Language::TypeScript,
        Language::C,
        Language::Cpp,
        Language::Rust,
        Language::CSharp,
    ] {
        let t = parse_source(l, b"").expect("an empty file parses");
        assert_eq!(t.len(), 1);
        assert_eq!(t.node(0).text, "");
    }
}

#[test]
fn typescript_uses_the_typescript_grammar() {
    let t = parse_source(Language::TypeScript, b"let x: number = 1;\n").unwrap();
    assert!((0..t.len()).any(|i| t.node(i).kind == "type_annotation"));
}

#[test]
fn run_extract_finds_go_key_generation() {
    let src = "package main\n\nimport (\n\t\"crypto/rand\"\n\t\"crypto/rsa\"\n)\n\nfunc main() {\n\trsa.GenerateKey(rand.Reader, 1024)\n}\n";
    let x = run_extract(src.as_bytes(), Language::Go).expect("extracts");
    assert_eq!(x.matches.len(), 1);
    assert_eq!(x.matches[0].api, "crypto/rsa.GenerateKey");
    assert_eq!(x.matches[0].line, 9);
    assert!(x.imports.is_empty());
}

#[test]
fn run_extract_on_c_reports_includes() {
    let src = "#include <openssl/rsa.h>\nvoid f(RSA *r, BIGNUM *e) { RSA_generate_key_ex(r, 1024, e, NULL); }\n";
    let x = run_extract(src.as_bytes(), Language::C).expect("extracts");
    assert_eq!(x.imports, vec!["openssl/rsa.h".to_string()]);
    assert!(x.matches.iter().any(|m| m.api == "openssl.RSA_generate_key_ex"));
}
