# rascal

A semantic linter for Rust source. A file is split into chunks (functions, impl
blocks, traits, structs, enums) by tree-sitter's Rust grammar; each chunk is
scored against a corpus of example code by the cosine similarity of embeddings,
and chunks below a threshold are reported.

## Layout

- `src/` — the verified library (Verus):
  - `syntax.rs`: the syntax-tree model and the calls into tree-sitter;
  - `chunker.rs`: which nodes become chunks, their names and snippets, with the
    laws that every chunk is of a wanted kind and is a piece of the source;
  - `domain.rs`: chunk kinds, chunks, corpus entries, errors, the `Chunker` trait;
  - `config.rs`: kind names in the configuration file;
  - `corpus.rs`: corpus rows as written and read back (tags as JSON via serde_json);
  - `scorer.rs`: the nearest corpus entry's name, whether a check passes;
  - `cli.rs`: command-line arguments;
  - `files.rs`: the search for `.rs` files in a directory tree;
  - `report.rs`: the lines printed for the corpus;
  - `text.rs`: string comparison and UTF-8 slices.
- `app/` — the program around it: reading files and directories, the SQLite
  corpus, the configuration file, embeddings and scores (floating point), and
  the printed table and JSON.
- `tests/` — tests of the library.
