# bevy_lint

The decision logic of a custom linter for the Bevy game engine, verified with Verus.

The linter runs inside the Rust compiler. Everything that decides *whether* to report
something, *where*, and *with which message or suggested fix* lives in `src/`, written over
small models of the compiler's data (types, expressions, written paths, function signatures)
and proved against specifications stated in `requires`/`ensures` clauses and proof functions.

- `src/ty.rs`, `src/expr.rs`, `src/hir.rs`, `src/paths.rs`: the models of types, expressions,
  written types and the Bevy items the lints recognise.
- One module per family of lints: `bundle.rs` (units in bundles), `camera.rs`, `schedule.rs`,
  `events.rs`, `query.rs` (zero-sized queries), `panicking.rs`, `reborrow.rs`, `reflect.rs`,
  `unit_struct.rs`, `naming.rs`, `appexit.rs`, `platform.rs`, `dependencies.rs`.
- `lint.rs`: the lints, their groups and default levels; `config.rs`: the configuration read
  from `Cargo.toml` metadata; `sym.rs`: the pre-interned strings; `callback.rs`, `cli.rs`,
  `version.rs`: the decisions of the driver and the command-line program.
- `text.rs`: string operations (prefixes, splitting, ordering) proved over `Seq<char>`.

`app/` is the `bevy_lint` command-line program and the code that reads `cargo metadata` and
`Cargo.toml` and hands their contents to the library.
