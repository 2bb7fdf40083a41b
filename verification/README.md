# seawall

A cryptographic inventory scanner for post-quantum migration, written in
Verus. It finds where source code, dependency manifests and configuration
name cryptographic algorithms, classifies each site against rule packs and
an algorithm table, and lays the findings out for SARIF, HTML and MCP
clients.

## Layout

- `src/` — the verified library.
  - Parsing, syntax trees and extraction: `parse`, `syntax`, `walker`,
    `matcher`, `callee`, `rustpath`, `args`, `populate`, `collectors`, `ancestry`,
    `sitecontext`, `go_structural`, `tls_groups`, `literals`, `extract`.
  - Rules and classification: `rules`, `packs`, `pattern`, `classify`,
    `sitecheck`, `surface`, `scanner`.
  - Data: `algorithms`, `oid`, `policy`, `builtins`, `tables`, `deps`,
    `config`, `findings`.
  - Output and protocol: `sarif`, `html`, `report`, `query`, `mcp`, `kat`,
    `tui`.
- `tests/` — tests run against the compiled library with the real
  tree-sitter grammars, regex engine and SHA-256.
- `app/` — the I/O edge: file reads, directory walks, TOML and JSON
  files, SARIF rendering and the stdio MCP server.

## Checking

The library is checked with Verus. Public functions state their results
in their `ensures`; where a result comes from code outside the library (the
tree-sitter parse, a regex match, a SHA-256 digest, a Unicode case
mapping), the contract names that result and states what the
library does with it. The laws that span functions are public proof
functions beside them.
