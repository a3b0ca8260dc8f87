# tixschema

The reading, naming and judging half of the `#[model_schema]` / `#[service_schema]` macros,
verified with Verus: every rule that decides what a schema surface is called, what a doc comment
publishes, which `pattern` a TypeScript, Zod and JSON Schema surface can carry, and what a declared
service trait is read into, stands in `src/` with a contract over plain values.

## Layout

- `src/rename_rule.rs` — serde's `rename_all` casing rules, and the modes they are named by.
- `src/utils/` — the rules every surface shares:
  - `naming.rs`: export names, schema module names, re-export lines, `snake_case`;
  - `alias.rs`: the registry a later reference reads an earlier declaration from;
  - `docs.rs`, `example.rs`: doc lines, ` ```rust example ` blocks, the `JSDoc` body, and the
    example's tokens spanned back onto the doc lines they were written on;
  - `escape.rs`: splicing a regex between the `/` delimiters of a JavaScript regex literal;
  - `pattern.rs`, `portable.rs`, `constraint.rs`: the `pattern` guards, read off the `regex`
    crate's own syntax tree.
- `src/service_schema/` — a service trait read first into plain values (`declared.rs`), then
  into operations, messages and wire names, with every refusal it can earn (`parse.rs`); the
  `#[service_schema(...)]` arguments and the transports that get a dispatcher; the emitted trait;
  the names and rustdoc the generated items carry.
- `src/syntax.rs`, `src/text.rs` — the calls into `syn`, `proc-macro2` and `std` the rules read
  their inputs through, each with the contract it is trusted for.
- `app/` — the token emitters (written with `quote!`) and the thread-local registry a macro's
  expansions share.
- `tests/` — the behaviour of the library, run against the real outside crates.
