# crbasic_lsp

A language server for CRBasic, the programming language of Campbell
Scientific data loggers, whose editor features are verified with Verus.

## Layout

- `src/` — the verified library. Each editor feature is a module with exact
  contracts over spec functions: `completion`, `hover`, `signature`,
  `definition`, `references`, `rename`, `document_highlight`,
  `linked_editing_range`, `symbols`, `workspace_symbol`, `folding`,
  `selection_range`, `semantic_tokens`, `inlay_hint`, `code_lens`,
  `code_action`, `call_hierarchy`, and the open-document store `document`.
  `syntax` holds the model of the CRBasic token stream and syntax tree the
  features work on, `protocol` the editor-facing result types, `text` the
  string helpers, `call_sites` the walk that finds every call in a program,
  and `backend` the request-level logic (cursor offsets, diagnostics, the
  data attached to quick fixes).
- Laws that relate several calls stand as public proof functions beside the
  functions they speak of (for example `a_closed_document_is_gone`,
  `rename_writes_the_new_name`, `outermost_selection_is_the_program`);
  `hover_headings` proves that every hover description opens with the
  described name.
- `tests/` — unit tests run against the compiled library.
- `app/` — the server program: stdio transport, the CRBasic lexer, parser
  and analyzer calls, and conversion between the protocol's wire types and
  the library's types.

## Building

Run Verus on `src/lib.rs` to check the proofs; the tests and the server
build with the usual Cargo workflow.
