# assess

Deterministic decision classification over a complete spine evidence
bundle. Artifacts from upstream tools (shape, rvl, verify, benchmark, ...)
are loaded into a bundle with one artifact per canonical tool; a policy's
ordered exact-match rules assign one of four decision bands (`PROCEED`,
`PROCEED_WITH_RISK`, `ESCALATE`, `BLOCK`), or the run is refused with one of
seven refusal codes.

The library in `src/` is written in Verus and verified: every public
function states what it returns, and the laws of the library (first
matching rule wins, a default rule always decides, exit codes follow the
band, refusals exit 2, an explicit witness ledger override disables
migration, ...) are proof functions.

Layout:

- `src/bundle` — artifact reports, canonical tool identity, bundle loading.
- `src/policy` — the `policy.v0` data model, its validation, and policy
  resolution (explicit path, search path, builtins, user directory) with
  the content hash of the loaded bytes.
- `src/evaluate` — rule matching and evaluation.
- `src/output` — the decision output, human, summary and TSV renderings.
- `src/pipeline.rs` — validation, loading and evaluation composed into one
  assessment with its exit class.
- `src/run.rs` — decision runs and witness commands (query, last, count):
  what is printed and with which exit code, given what the caller read.
- `src/cli` — command-line routing and exit classes.
- `src/doctor.rs` — the read-only doctor: the facts read from the
  compiled-in manifest and schemas, the health checks over them, and the
  health, triage and capabilities reports.
- `src/paths.rs`, `src/witness` — state locations, copy-only migration
  plans, the witness ledger records and their queries.
- `app/` — the executable: clap parsing, YAML and JSON serialisation, file
  system and environment access.
- `tests/` — behaviour tests against the library.
