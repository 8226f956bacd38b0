# eva_runtime

The decision core of a deterministic self-evolution runtime: which mutations
of a project may be generated and applied, how runs are classified and
counted, when a candidate may be promoted or released, and what the release,
audit and readiness reports say. Every decision is an executable function
with a contract proved by Verus.

## Layout

- `src/` — the verified library.
  - `text.rs`, `ordering.rs` — strings and sorting, with exact specifications.
  - `paths.rs` — path components, extensions and parents from `std::path`:
    stated exactly for plain paths (no `\`, no `:`, not starting with `//`),
    which Unix-like targets and Windows split at `/` alone; for other paths the answers
    depend on the platform and are not stated.
  - `digest.rs` — SHA-256 digests from `sha2`, named rather than specified.
  - `contracts.rs` — the data the runtime exchanges.
  - `graph.rs`, `analyzer.rs`, `rust_ast.rs` — the evolution graph, the
    graph-guided choice of mutation targets, and the Rust items of a file.
  - `github.rs` — repository discovery filters.
  - `evolution/` — validation of mutations and tasks, mutation templates,
    run metrics, portfolios and policy, campaigns, the promotion queue, and
    the release, audit and readiness reports.
- `tests/` — tests of the library on concrete values.
- `app/` — the file-system, process and JSON edges, and the floating-point
  scoring, around the library.
