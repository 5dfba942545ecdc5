# boltffi_scan

The front end of an FFI binding generator, verified with Verus. It parses
a crate's source text, walks its inline modules, reads the Rust items the
crate marks for export (`#[data]`, `#[error]`, `#[export]`,
`#[data(impl)]`, `#[skip]`), sorts them by the shape they declare, indexes
the declared types by their fully qualified paths, and scans records,
classes and type expressions into a contract: a record field's type is
resolved against the declared types from the field's own module (by a
bare name, or a `crate::`, `self::` or `super::` path), whatever the
order of declaration, and the methods of `#[data(impl)]` blocks are
attached to the record or enum they name. It also holds the wrapper
expansion: how a parameter crosses the boundary, what a wrapper returns
and the text of its return type and body, what it returns when an
argument cannot be read, how an encoded parameter is decoded, how a record
or enum method's receiver is read and what it adds to the wrapper, how the
exported `extern "C"` wrapper is assembled, how a record's runtime trait
implementations are written, how values holding custom types are
converted, how an `async` call completes, how a stream
pops a batch and the six exports it is written as, how an optional scalar
is returned, and how closures cross in both directions. Generated code is
produced as Rust text whose every character is fixed by a contract.

## Layout

- `src/` — the verified library. Syntax is modelled by the library's own
  types (`syntax`), so every decision is stated over plain values:
  - parsing: `parse` (`syn::parse_file` behind a trusted wrapper that
    converts its items one for one; `syn_types` declares the `syn` types
    it reads), `module_tree` (the modules of one file), `scan` (the whole
    scan of a tree or of a text);
  - scanning: `marker`, `marked`, `declared_types`, `impl_target`,
    `impl_items`, `class`, `record`, `registry`, `type_expr` (the
    resolving type scanner), `ty`, `standard`,
    `visibility`, `spelling`, `path`, `error`;
  - expansion: `expansion`, `arguments`, `param` (with `direct`,
    `encoded` and `foreign_return`), `returned` (with the returned
    closure's `closure`, `returned_closure`, `closure_write`,
    `closure_invoke` and `closure_return`), `export`, `record_receiver`,
    `enum_receiver`, `record_impls` (a record's runtime trait implementations), `incoming`,
    `async_call`, `stream`, `type_ref`, `wire`, `custom`, `transform` (how
    values holding custom types are converted in both directions),
    `names`, `source_names` (the last checks names against `syn`'s parser
    through trusted wrappers).
- `app/` — the unverified edge: reading files and a `Display` error type.
- `tests/` — tests run against the compiled library.
