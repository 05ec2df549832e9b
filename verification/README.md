# lsp_configuration

The configuration handling of a Python language server, verified with Verus: what a client's
answers to `workspace/configuration` decide about type errors, language services and the interpreter
that imports are looked up with. It is a model of such a server: `src/session.rs` lists what it
decides by its own choice.

- `src/` is the library. `session` takes what the client sends and what the analysis of Python files
  finds, and decides what the client gets to see. `scenarios` are whole sessions as a client takes
  them, `laws` and `conformance` the theorems about both.
- `app/` runs the scenarios against a live server: it writes the files, speaks the values of
  `lsp_types` and `serde_json`, and leaves the wire to a `Client`.
- `tests/` runs every scenario on a session, with stand-ins for the analysis.

Paths are Unix paths. Three functions are trusted: the one in `path` that makes a file URI with
`lsp_types::Url`, and the two in `methods` that read the names of methods from `lsp_types`.
