//! Small readings of source text: a file's language from its extension,
//! a JS string literal without its quotes, and the import paths and module
//! specifiers the binding collectors recognise.
use vstd::prelude::*;
use crate::rules::{Language, extensions_of};
use crate::text::{contains_seq, trim_set, chars_of, trim_set_chars, string_from_chars, str_contains, str_eq};

verus! {

/// What `Path::extension` yields for a path, as text.
pub uninterp spec fn path_extension(path: Seq<char>) -> Option<Seq<char>>;

/// The last index before `k` at which `s` holds `c`, or -1.
pub open spec fn last_index_of(s: Seq<char>, c: char, k: int) -> int
    decreases k,
{
    if k <= 0 {
        -1
    } else if s[k - 1] == c {
        k - 1
    } else {
        last_index_of(s, c, k - 1)
    }
}

/// A path's last segment: the text after its final `/`.
pub open spec fn last_segment(p: Seq<char>) -> Seq<char> {
    p.subrange(last_index_of(p, '/', p.len() as int) + 1, p.len() as int)
}

/// A path whose file name is plainly its last segment on every platform:
/// not empty, not ending in `/`, holding no `\` or `:`, not starting with
/// `//`, and whose last segment is neither `.` nor `..`.
pub open spec fn plain_file_path(p: Seq<char>) -> bool {
    &&& p.len() > 0
    &&& p.last() != '/'
    &&& !p.contains('\\')
    &&& !p.contains(':')
    &&& !(p.len() >= 2 && p[0] == '/' && p[1] == '/')
    &&& last_segment(p) != "."@
    &&& last_segment(p) != ".."@
}

/// The extension of a file name as `Path::extension` documents it: none
/// when the name has no `.`, or its only `.` leads it; otherwise the text
/// after the final `.`.
pub open spec fn name_extension(name: Seq<char>) -> Option<Seq<char>> {
    let d = last_index_of(name, '.', name.len() as int);
    if d <= 0 {
        None
    } else {
        Some(name.subrange(d + 1, name.len() as int))
    }
}

/// `std::path::Path::extension`, read back as a `String`. The contract
/// names its result; for a plain file path it claims what the documentation
/// of `Path::file_name` and `Path::extension` says: the file name is the
/// last segment, and the extension is the text after its final `.`.
#[verifier::external_body]
fn file_extension(path: &str) -> (r: Option<String>)
    ensures
        match r {
            Some(e) => path_extension(path@) == Some(e@),
            None => path_extension(path@) is None,
        },
        plain_file_path(path@) ==> match r {
            Some(e) => name_extension(last_segment(path@)) == Some(e@),
            None => name_extension(last_segment(path@)) is None,
        },
{
    std::path::Path::new(path).extension().and_then(|e| e.to_str()).map(|e| e.to_string())
}

/// The language a file extension is scanned as.
pub open spec fn language_of_extension(e: Seq<char>) -> Option<Language> {
    if e == "go"@ {
        Some(Language::Go)
    } else if e == "py"@ {
        Some(Language::Python)
    } else if e == "java"@ {
        Some(Language::Java)
    } else if e == "js"@ || e == "mjs"@ || e == "cjs"@ {
        Some(Language::JavaScript)
    } else if e == "ts"@ || e == "tsx"@ || e == "mts"@ {
        Some(Language::TypeScript)
    } else if e == "c"@ || e == "h"@ {
        Some(Language::C)
    } else if e == "cpp"@ || e == "cc"@ || e == "cxx"@ || e == "hpp"@ || e == "hxx"@ {
        Some(Language::Cpp)
    } else if e == "rs"@ {
        Some(Language::Rust)
    } else if e == "cs"@ {
        Some(Language::CSharp)
    } else {
        None
    }
}

/// The language files with extension `ext` are scanned as.
pub fn language_for_extension(ext: &str) -> (r: Option<Language>)
    ensures
        r == language_of_extension(ext@),
{
    if str_eq(ext, "go") {
        Some(Language::Go)
    } else if str_eq(ext, "py") {
        Some(Language::Python)
    } else if str_eq(ext, "java") {
        Some(Language::Java)
    } else if str_eq(ext, "js") || str_eq(ext, "mjs") || str_eq(ext, "cjs") {
        Some(Language::JavaScript)
    } else if str_eq(ext, "ts") || str_eq(ext, "tsx") || str_eq(ext, "mts") {
        Some(Language::TypeScript)
    } else if str_eq(ext, "c") || str_eq(ext, "h") {
        Some(Language::C)
    } else if str_eq(ext, "cpp") || str_eq(ext, "cc") || str_eq(ext, "cxx") || str_eq(ext, "hpp")
        || str_eq(ext, "hxx") {
        Some(Language::Cpp)
    } else if str_eq(ext, "rs") {
        Some(Language::Rust)
    } else if str_eq(ext, "cs") {
        Some(Language::CSharp)
    } else {
        None
    }
}

/// The language a source file is scanned as, from its extension.
pub fn detect_language(path: &str) -> (r: Option<Language>)
    ensures
        r == match path_extension(path@) {
            Some(e) => language_of_extension(e),
            None => None,
        },
        plain_file_path(path@) ==> r == match name_extension(last_segment(path@)) {
            Some(e) => language_of_extension(e),
            None => None,
        },
{
    match file_extension(path) {
        Some(e) => language_for_extension(e.as_str()),
        None => None,
    }
}

proof fn lemma_last_index_skip(s: Seq<char>, c: char, m: int, k: int)
    requires
        0 <= m <= k <= s.len(),
        forall|x: int| m <= x < k ==> s[x] != c,
    ensures
        last_index_of(s, c, k) == last_index_of(s, c, m),
    decreases k - m,
{
    if k > m {
        lemma_last_index_skip(s, c, m, k - 1);
    }
}

/// A file `src/f.<e>`, where `e` holds no `.`, `/`, `\` or `:`, is a plain
/// file path whose extension is `e`.
pub proof fn lemma_src_file_extension(e: Seq<char>)
    requires
        !e.contains('.'),
        !e.contains('/'),
        !e.contains('\\'),
        !e.contains(':'),
    ensures
        plain_file_path("src/f."@ + e),
        name_extension(last_segment("src/f."@ + e)) == Some(e),
{
    reveal_strlit("src/f.");
    reveal_strlit(".");
    reveal_strlit("..");
    let pre = "src/f."@;
    assert(pre.len() == 6);
    assert(pre[0] == 's' && pre[1] == 'r' && pre[2] == 'c' && pre[3] == '/' && pre[4] == 'f' && pre[5] == '.');
    assert("."@.len() == 1);
    assert(".."@.len() == 2 && ".."@[0] == '.');
    let p = pre + e;
    let n = p.len() as int;
    assert forall|x: int| 6 <= x < n implies p[x] != '/' && p[x] != '.' && p[x] != '\\' && p[x] != ':' by {
        assert(p[x] == e[x - 6]);
    }
    lemma_last_index_skip(p, '/', 6, n);
    assert(last_index_of(p, '/', 4) == 3);
    assert(last_index_of(p, '/', 5) == 3);
    assert(last_index_of(p, '/', 6) == 3);
    let name = last_segment(p);
    assert(name == p.subrange(4, n));
    assert(name.len() == e.len() + 2);
    assert(name[0] == 'f' && name[1] == '.');
    assert forall|x: int| 2 <= x < name.len() implies name[x] != '.' by {
        assert(name[x] == p[x + 4]);
    }
    lemma_last_index_skip(name, '.', 2, name.len() as int);
    assert(last_index_of(name, '.', 2) == 1);
    assert(name.subrange(2, name.len() as int) =~= e);
    assert(p.last() != '/');
    assert(!p.contains('\\')) by {
        assert forall|x: int| 0 <= x < n implies p[x] != '\\' by {}
    }
    assert(!p.contains(':')) by {
        assert forall|x: int| 0 <= x < n implies p[x] != ':' by {}
    }
    assert(name != "."@);
    assert(name != ".."@) by {
        if name.len() == 2 {
            assert(name[0] != ".."@[0]);
        }
    }
}

/// Every extension a language lists is detected as that language: the
/// file `src/f.<e>` is a plain file path with extension `e`, and `e` maps
/// to the language.
pub proof fn lemma_listed_extensions_detect(l: Language, k: int)
    requires
        0 <= k < extensions_of(l).len(),
    ensures
        language_of_extension(extensions_of(l)[k]) == Some(l),
        plain_file_path("src/f."@ + extensions_of(l)[k]),
        name_extension(last_segment("src/f."@ + extensions_of(l)[k])) == Some(extensions_of(l)[k]),
{
    reveal_strlit("go");
    assert("go"@.len() == 2);
    assert("go"@[0] == 'g');
    assert("go"@[1] == 'o');
    reveal_strlit("py");
    assert("py"@.len() == 2);
    assert("py"@[0] == 'p');
    assert("py"@[1] == 'y');
    reveal_strlit("java");
    assert("java"@.len() == 4);
    assert("java"@[0] == 'j');
    assert("java"@[1] == 'a');
    assert("java"@[2] == 'v');
    assert("java"@[3] == 'a');
    reveal_strlit("js");
    assert("js"@.len() == 2);
    assert("js"@[0] == 'j');
    assert("js"@[1] == 's');
    reveal_strlit("mjs");
    assert("mjs"@.len() == 3);
    assert("mjs"@[0] == 'm');
    assert("mjs"@[1] == 'j');
    assert("mjs"@[2] == 's');
    reveal_strlit("cjs");
    assert("cjs"@.len() == 3);
    assert("cjs"@[0] == 'c');
    assert("cjs"@[1] == 'j');
    assert("cjs"@[2] == 's');
    reveal_strlit("ts");
    assert("ts"@.len() == 2);
    assert("ts"@[0] == 't');
    assert("ts"@[1] == 's');
    reveal_strlit("tsx");
    assert("tsx"@.len() == 3);
    assert("tsx"@[0] == 't');
    assert("tsx"@[1] == 's');
    assert("tsx"@[2] == 'x');
    reveal_strlit("mts");
    assert("mts"@.len() == 3);
    assert("mts"@[0] == 'm');
    assert("mts"@[1] == 't');
    assert("mts"@[2] == 's');
    reveal_strlit("c");
    assert("c"@.len() == 1);
    assert("c"@[0] == 'c');
    reveal_strlit("h");
    assert("h"@.len() == 1);
    assert("h"@[0] == 'h');
    reveal_strlit("cpp");
    assert("cpp"@.len() == 3);
    assert("cpp"@[0] == 'c');
    assert("cpp"@[1] == 'p');
    assert("cpp"@[2] == 'p');
    reveal_strlit("cc");
    assert("cc"@.len() == 2);
    assert("cc"@[0] == 'c');
    assert("cc"@[1] == 'c');
    reveal_strlit("cxx");
    assert("cxx"@.len() == 3);
    assert("cxx"@[0] == 'c');
    assert("cxx"@[1] == 'x');
    assert("cxx"@[2] == 'x');
    reveal_strlit("hpp");
    assert("hpp"@.len() == 3);
    assert("hpp"@[0] == 'h');
    assert("hpp"@[1] == 'p');
    assert("hpp"@[2] == 'p');
    reveal_strlit("hxx");
    assert("hxx"@.len() == 3);
    assert("hxx"@[0] == 'h');
    assert("hxx"@[1] == 'x');
    assert("hxx"@[2] == 'x');
    reveal_strlit("rs");
    assert("rs"@.len() == 2);
    assert("rs"@[0] == 'r');
    assert("rs"@[1] == 's');
    reveal_strlit("cs");
    assert("cs"@.len() == 2);
    assert("cs"@[0] == 'c');
    assert("cs"@[1] == 's');
    let e = extensions_of(l)[k];
    assert(!e.contains('.') && !e.contains('/') && !e.contains('\\') && !e.contains(':'));
    lemma_src_file_extension(e);
}

/// The quote characters a JS/TS string literal can be written with.
pub open spec fn js_quotes() -> Seq<char> {
    seq!['"', '\'', '`']
}

/// Strip the quote characters a JS/TS string literal can be written with,
/// from both ends.
pub fn unquote_js(s: &str) -> (r: String)
    ensures
        r@ == trim_set(s@, js_quotes()),
{
    let mut q: Vec<char> = Vec::new();
    q.push('"');
    q.push('\'');
    q.push('`');
    assert(q@ =~= js_quotes());
    string_from_chars(&trim_set_chars(&chars_of(s), &q))
}

/// The post-quantum signature family a Go import path belongs to.
pub open spec fn go_pq_family_spec(p: Seq<char>) -> Option<Seq<char>> {
    if contains_seq(p, "circl/sign/dilithium"@) {
        Some("ML-DSA (circl dilithium)"@)
    } else if contains_seq(p, "circl/sign/mldsa"@) {
        Some("ML-DSA (circl mldsa)"@)
    } else if contains_seq(p, "circl/sign/slhdsa"@) {
        Some("SLH-DSA (circl slhdsa)"@)
    } else {
        None
    }
}

/// The human-readable post-quantum signature family of a Go import path,
/// for the `circl` signature packages.
pub fn go_pq_signature_family(import_path: &str) -> (r: Option<&'static str>)
    ensures
        match r {
            Some(f) => go_pq_family_spec(import_path@) == Some(f@),
            None => go_pq_family_spec(import_path@) is None,
        },
{
    if str_contains(import_path, "circl/sign/dilithium") {
        Some("ML-DSA (circl dilithium)")
    } else if str_contains(import_path, "circl/sign/mldsa") {
        Some("ML-DSA (circl mldsa)")
    } else if str_contains(import_path, "circl/sign/slhdsa") {
        Some("SLH-DSA (circl slhdsa)")
    } else {
        None
    }
}

/// The key prefix a bare-importable JS module specifier binds under.
pub open spec fn js_bare_prefix_spec(s: Seq<char>) -> Option<Seq<char>> {
    if s == "crypto"@ || s == "node:crypto"@ {
        Some("crypto"@)
    } else if s == "jose"@ {
        Some("jose"@)
    } else {
        None
    }
}

/// Which bare-import-eligible module, if any, a specifier names.
pub fn js_bare_import_module_prefix(specifier: &str) -> (r: Option<&'static str>)
    ensures
        match r {
            Some(p) => js_bare_prefix_spec(specifier@) == Some(p@),
            None => js_bare_prefix_spec(specifier@) is None,
        },
{
    if str_eq(specifier, "crypto") || str_eq(specifier, "node:crypto") {
        Some("crypto")
    } else if str_eq(specifier, "jose") {
        Some("jose")
    } else {
        None
    }
}

} // verus!
