//! Project configuration: the defaults a project's config file falls back
//! on, field by field.
use vstd::prelude::*;
use crate::text::owned;

verus! {

/// The file name a project's configuration is read from.
pub const CONFIG_FILENAME: &'static str = ".seawall.toml";

/// Top-level configuration.
#[derive(Debug, Clone)]
pub struct Config {
    pub scan: ScanConfig,
    pub output: OutputConfig,
    pub policy: PolicyConfig,
    pub diagnostics: DiagnosticsConfig,
}

#[derive(Debug, Clone)]
pub struct ScanConfig {
    /// Directories (relative to the project root) to include.
    pub paths: Vec<String>,
    /// Directories to skip.
    pub exclude_paths: Vec<String>,
    /// Languages to scan (informational).
    pub languages: Vec<String>,
}

#[derive(Debug, Clone)]
pub struct OutputConfig {
    pub html: String,
    pub sarif: String,
    pub cbom: String,
    pub summary_json: String,
}

#[derive(Debug, Clone)]
pub struct PolicyConfig {
    /// Policy preset name, or a path to a policy file.
    pub preset: String,
    pub include_safe: bool,
}

#[derive(Debug, Clone)]
pub struct DiagnosticsConfig {
    pub show_errors: bool,
}

/// Why a configuration file could not be loaded.
#[derive(Debug, Clone)]
pub enum ConfigError {
    /// The file exists but could not be read: path, reason.
    Io(String, String),
    /// The file is not a valid configuration: path, reason.
    Parse(String, String),
}

/// The views of a list of strings.
pub open spec fn text_list(v: Seq<String>) -> Seq<Seq<char>> {
    v.map_values(|s: String| s@)
}

pub open spec fn default_scan_paths_spec() -> Seq<Seq<char>> {
    seq!["src"@, "lib"@]
}

pub open spec fn default_exclude_paths_spec() -> Seq<Seq<char>> {
    seq!["tests"@, "vendor"@, "target"@, "node_modules"@]
}

fn string_list(items: Vec<&str>) -> (r: Vec<String>)
    ensures
        text_list(r@) == items@.map_values(|s: &str| s@),
{
    let mut r: Vec<String> = Vec::new();
    let mut i: usize = 0;
    while i < items.len()
        invariant
            i <= items@.len(),
            text_list(r@) == items@.map_values(|s: &str| s@).subrange(0, i as int),
        decreases items.len() - i,
    {
        let ghost prev = r@;
        r.push(owned(items[i]));
        assert(text_list(r@) =~= text_list(prev).push(items@[i as int]@));
        i = i + 1;
        assert(items@.map_values(|s: &str| s@).subrange(0, i as int) =~= items@.map_values(|s: &str| s@).subrange(0, i - 1).push(items@[i - 1]@));
    }
    assert(items@.map_values(|s: &str| s@).subrange(0, items@.len() as int) =~= items@.map_values(|s: &str| s@));
    r
}

/// Directories scanned by default.
pub fn default_scan_paths() -> (r: Vec<String>)
    ensures
        text_list(r@) == default_scan_paths_spec(),
{
    let items = vec!["src", "lib"];
    let r = string_list(items);
    assert(text_list(r@) =~= default_scan_paths_spec());
    r
}

/// Directories skipped by default.
pub fn default_exclude_paths() -> (r: Vec<String>)
    ensures
        text_list(r@) == default_exclude_paths_spec(),
{
    let items = vec!["tests", "vendor", "target", "node_modules"];
    let r = string_list(items);
    assert(text_list(r@) =~= default_exclude_paths_spec());
    r
}

/// Default HTML report path.
pub fn default_html_out() -> (r: String)
    ensures
        r@ == "reports/seawall.html"@,
{
    owned("reports/seawall.html")
}

/// Default SARIF report path.
pub fn default_sarif_out() -> (r: String)
    ensures
        r@ == "reports/seawall.sarif"@,
{
    owned("reports/seawall.sarif")
}

/// Default CycloneDX CBOM path.
pub fn default_cbom_out() -> (r: String)
    ensures
        r@ == "reports/seawall.cbom.json"@,
{
    owned("reports/seawall.cbom.json")
}

/// Default summary JSON path.
pub fn default_summary_out() -> (r: String)
    ensures
        r@ == "reports/seawall.summary.json"@,
{
    owned("reports/seawall.summary.json")
}

/// Default policy preset.
pub fn default_preset() -> (r: String)
    ensures
        r@ == "nist-default"@,
{
    owned("nist-default")
}

impl Default for ScanConfig {
    fn default() -> (r: ScanConfig)
        ensures
            text_list(r.paths@) == default_scan_paths_spec(),
            text_list(r.exclude_paths@) == default_exclude_paths_spec(),
            r.languages@.len() == 0,
    {
        ScanConfig { paths: default_scan_paths(), exclude_paths: default_exclude_paths(), languages: Vec::new() }
    }
}

impl Default for OutputConfig {
    fn default() -> (r: OutputConfig)
        ensures
            r.html@ == "reports/seawall.html"@,
            r.sarif@ == "reports/seawall.sarif"@,
            r.cbom@ == "reports/seawall.cbom.json"@,
            r.summary_json@ == "reports/seawall.summary.json"@,
    {
        OutputConfig {
            html: default_html_out(),
            sarif: default_sarif_out(),
            cbom: default_cbom_out(),
            summary_json: default_summary_out(),
        }
    }
}

impl Default for PolicyConfig {
    fn default() -> (r: PolicyConfig)
        ensures
            r.preset@ == "nist-default"@,
            !r.include_safe,
    {
        PolicyConfig { preset: default_preset(), include_safe: false }
    }
}

impl Default for DiagnosticsConfig {
    fn default() -> (r: DiagnosticsConfig)
        ensures
            !r.show_errors,
    {
        DiagnosticsConfig { show_errors: false }
    }
}

/// Every field of a configuration at its default.
pub open spec fn is_default_config(c: Config) -> bool {
    &&& text_list(c.scan.paths@) == default_scan_paths_spec()
    &&& text_list(c.scan.exclude_paths@) == default_exclude_paths_spec()
    &&& c.scan.languages@.len() == 0
    &&& c.output.html@ == "reports/seawall.html"@
    &&& c.output.sarif@ == "reports/seawall.sarif"@
    &&& c.output.cbom@ == "reports/seawall.cbom.json"@
    &&& c.output.summary_json@ == "reports/seawall.summary.json"@
    &&& c.policy.preset@ == "nist-default"@
    &&& !c.policy.include_safe
    &&& !c.diagnostics.show_errors
}

impl Default for Config {
    fn default() -> (r: Config)
        ensures
            is_default_config(r),
    {
        Config {
            scan: ScanConfig::default(),
            output: OutputConfig::default(),
            policy: PolicyConfig::default(),
            diagnostics: DiagnosticsConfig::default(),
        }
    }
}

} // verus!
