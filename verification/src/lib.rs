pub mod text;
pub mod split;
pub mod pattern;
pub mod tables;
pub mod findings;
pub mod extract;
pub mod callee;
pub mod rustpath;
pub mod rules;
pub mod sitecheck;
pub mod literals;
pub mod surface;
pub mod classify;
pub mod packs;
pub mod algorithms;
pub mod oid;
pub mod policy;
pub mod builtins;
pub mod deps;
pub mod config;
pub mod tui;
pub mod kat;
pub mod sitecontext;
pub mod scanner;
pub mod report;
pub mod query;
pub mod syntax;
pub mod args;
pub mod populate;
pub mod ancestry;
pub mod matcher;
pub mod walker;
pub mod parse;
pub mod collectors;
pub mod sarif;
pub mod html;
pub mod mcp;
pub mod go_structural;
pub mod tls_groups;
