# vp_reference

A reference interpreter for claim/evidence verification, written in Verus.

A *claim* asserts a body of a given assertion type; *evidence* records offer content
for a claim. Evaluation applies an ordered rule set (evidence binding, then a literal
or a normalized body comparison), aggregates per-evidence outcomes under the
`ALL_REQUIRED` policy, and records a numbered trace of what was applied.

Layout:

- `src/model` – domain values (identifiers, claims, evidence, metadata, traces, results) with their views.
- `src/context` – specification context, evaluation context and multi-evidence input, with their builders.
- `src/interpreter` – rules, rule sets and runs, evaluators and dispatch, aggregation, text normalization,
  and the laws that relate them (determinism, order independence, metadata independence, trace numbering).
- `src/cli` – the verify pipeline used by the command line and the HTTP service: documents in, explained
  human text or a JSON report out.
- `app` – the command line (`verify`, `load-spec`, `serve`), file and network I/O, and serde shapes.

Unicode normalization (NFC) and general categories come from the `unicode-normalization`
and `unicode-general-category` crates; the library states what it relies on from them in
`src/interpreter/unicode.rs`.
