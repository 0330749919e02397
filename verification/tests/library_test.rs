use rascal::chunker::{build_chunk, extract_name, node_chunk_kind, TreeSitterChunker};
use rascal::cli::{parse_args, usage, Command, IndexSource};
use rascal::config::{check_kinds_from, default_check_kinds_vec, default_kinds};
use rascal::corpus::{entry_from_row, row_for_chunk};
use rascal::domain::{all_kinds, contains_kind, Chunk, ChunkKind, Chunker, CorpusEntry, RascalError};
use rascal::embedder::StubEmbedder;
use rascal::files::{collect_rs_files, descends_into, FsEntry};
use rascal::report::{entries_summary, entry_line, i64_decimal, index_summary, usize_decimal};
use rascal::scorer::nearest_match;
use rascal::syntax::SyntaxNode;
use rascal::text::{slice_text, str_eq};

fn node(kind: &str, field: Option<&str>, start: usize, end: usize, children: Vec<SyntaxNode>) -> SyntaxNode {
    SyntaxNode {
        kind: kind.to_string(),
        field: field.map(|f| f.to_string()),
        start,
        end,
        children,
    }
}

fn args(items: &[&str]) -> Vec<String> {
    items.iter().map(|s| s.to_string()).collect()
}

fn entry(id: i64, name: &str) -> CorpusEntry {
    CorpusEntry {
        id,
        name: name.to_string(),
        kind: ChunkKind::Function,
        tags: vec![],
        source_path: "p.rs".to_string(),
        snippet: "fn x() {}".to_string(),
    }
}

fn file(path: &str, name: &str, ext: Option<&str>) -> FsEntry {
    FsEntry {
        path: path.to_string(),
        name: name.to_string(),
        extension: ext.map(|e| e.to_string()),
        is_dir: false,
        entries: vec![],
    }
}

fn dir(path: &str, name: &str, entries: Vec<FsEntry>) -> FsEntry {
    FsEntry {
        path: path.to_string(),
        name: name.to_string(),
        extension: None,
        is_dir: true,
        entries,
    }
}

#[test]
fn kind_names_parse_back_in_config_and_corpus() {
    for k in all_kinds() {
        let name = k.to_string();
        assert_eq!(rascal::config::parse_kind(&name), Some(k));
        assert_eq!(rascal::corpus::parse_kind(&name), k);
    }
    assert_eq!(ChunkKind::ImplBlock.to_string(), "impl_block");
}

#[test]
fn unknown_kind_names() {
    assert_eq!(rascal::config::parse_kind("module"), None);
    assert_eq!(rascal::config::parse_kind("Function"), None);
    assert_eq!(rascal::corpus::parse_kind("module"), ChunkKind::Enum);
    assert_eq!(rascal::corpus::parse_kind(""), ChunkKind::Enum);
}

#[test]
fn default_kind_names_give_default_kinds() {
    assert_eq!(default_kinds(), vec!["function", "impl_block", "trait"]);
    assert_eq!(check_kinds_from(&default_kinds()), default_check_kinds_vec());
    assert_eq!(
        default_check_kinds_vec(),
        vec![ChunkKind::Function, ChunkKind::ImplBlock, ChunkKind::Trait]
    );
}

#[test]
fn check_kinds_skip_unknown_names() {
    let names = args(&["struct", "bogus", "enum", "struct"]);
    assert_eq!(
        check_kinds_from(&names),
        vec![ChunkKind::Struct, ChunkKind::Enum, ChunkKind::Struct]
    );
    assert_eq!(check_kinds_from(&vec![]), vec![]);
}

#[test]
fn all_kinds_lists_five() {
    assert_eq!(all_kinds().len(), 5);
    assert!(contains_kind(&all_kinds(), ChunkKind::Enum));
    assert!(!contains_kind(&vec![ChunkKind::Function], ChunkKind::Trait));
}

#[test]
fn parse_args_accepts_each_form() {
    match parse_args(&args(&["check", "a.rs"])).unwrap() {
        Command::Check { path, json } => {
            assert_eq!(path, "a.rs");
            assert!(!json);
        }
        other => panic!("unexpected {:?}", other),
    }
    match parse_args(&args(&["check", "a.rs", "--json"])).unwrap() {
        Command::Check { path, json } => {
            assert_eq!(path, "a.rs");
            assert!(json);
        }
        other => panic!("unexpected {:?}", other),
    }
    match parse_args(&args(&["index", "b.rs"])).unwrap() {
        Command::Index { source: IndexSource::File(p) } => assert_eq!(p, "b.rs"),
        other => panic!("unexpected {:?}", other),
    }
    match parse_args(&args(&["index", "--from", "src"])).unwrap() {
        Command::Index { source: IndexSource::Dir(d) } => assert_eq!(d, "src"),
        other => panic!("unexpected {:?}", other),
    }
    assert!(matches!(parse_args(&args(&["corpus", "list"])).unwrap(), Command::CorpusList));
    assert!(matches!(parse_args(&args(&["corpus", "clear"])).unwrap(), Command::CorpusClear));
}

#[test]
fn parse_args_index_with_two_words_is_a_file() {
    match parse_args(&args(&["index", "--from"])).unwrap() {
        Command::Index { source: IndexSource::File(p) } => assert_eq!(p, "--from"),
        other => panic!("unexpected {:?}", other),
    }
}

#[test]
fn parse_args_rejects_others_with_usage() {
    for bad in [
        vec![],
        vec!["check"],
        vec!["check", "a.rs", "--yaml"],
        vec!["corpus", "drop"],
        vec!["index", "--to", "src"],
        vec!["corpus", "list", "now"],
    ] {
        let err = parse_args(&args(&bad)).unwrap_err();
        assert_eq!(err, usage());
    }
    assert_eq!(
        usage(),
        "usage:\n  rascal check <file> [--json]\n  rascal index <file>\n  rascal index --from <dir>\n  rascal corpus list\n  rascal corpus clear"
    );
}

#[test]
fn rs_files_are_found_depth_first_and_skip_build_dirs() {
    let root = dir(
        "root",
        "",
        vec![
            file("root/a.rs", "a.rs", Some("rs")),
            dir("root/target", "target", vec![file("root/target/t.rs", "t.rs", Some("rs"))]),
            dir(
                "root/src",
                "src",
                vec![
                    file("root/src/lib.rs", "lib.rs", Some("rs")),
                    file("root/src/notes.txt", "notes.txt", Some("txt")),
                    dir("root/src/.git", ".git", vec![file("root/src/.git/x.rs", "x.rs", Some("rs"))]),
                ],
            ),
            dir("root/node_modules", "node_modules", vec![file("root/node_modules/n.rs", "n.rs", Some("rs"))]),
            file("root/README", "README", None),
            file("root/z.rs", "z.rs", Some("rs")),
        ],
    );
    assert_eq!(collect_rs_files(&root), vec!["root/a.rs", "root/src/lib.rs", "root/z.rs"]);
}

#[test]
fn directory_named_like_a_source_file_is_searched() {
    let root = dir("r", "", vec![dir("r/x.rs", "x.rs", vec![file("r/x.rs/y.rs", "y.rs", Some("rs"))])]);
    assert_eq!(collect_rs_files(&root), vec!["r/x.rs/y.rs"]);
}

#[test]
fn skipped_directory_names() {
    assert!(!descends_into("target"));
    assert!(!descends_into(".git"));
    assert!(!descends_into("node_modules"));
    assert!(descends_into("src"));
    assert!(descends_into(""));
}

#[test]
fn nearest_match_takes_first_entry_with_the_id() {
    let entries = vec![entry(3, "three"), entry(7, "seven"), entry(7, "again")];
    assert_eq!(nearest_match(Some(7), &entries), Some("seven".to_string()));
    assert_eq!(nearest_match(Some(3), &entries), Some("three".to_string()));
    assert_eq!(nearest_match(Some(9), &entries), None);
    assert_eq!(nearest_match(None, &entries), None);
}

#[test]
fn stored_chunk_reads_back() {
    let chunk = Chunk {
        name: "impl Display for MyError".to_string(),
        kind: ChunkKind::ImplBlock,
        source_path: "src/x.rs".to_string(),
        byte_range: (4, 20),
        snippet: "impl Display for MyError {}".to_string(),
    };
    let tags = vec!["idiomatic".to_string(), "say \"hi\"".to_string()];
    let row = row_for_chunk(&chunk, &tags).unwrap();
    assert_eq!(row.kind, "impl_block");
    assert_eq!(row.tags, "[\"idiomatic\",\"say \\\"hi\\\"\"]");
    assert_eq!(row.name, chunk.name);
    let e = entry_from_row(12, row.name, &row.kind, &row.tags, row.source_path, row.snippet);
    assert_eq!(e.id, 12);
    assert_eq!(e.name, "impl Display for MyError");
    assert_eq!(e.kind, ChunkKind::ImplBlock);
    assert_eq!(e.tags, tags);
    assert_eq!(e.source_path, "src/x.rs");
    assert_eq!(e.snippet, "impl Display for MyError {}");
}

#[test]
fn empty_tags_are_written_as_an_empty_array() {
    let chunk = Chunk {
        name: "f".to_string(),
        kind: ChunkKind::Function,
        source_path: "a.rs".to_string(),
        byte_range: (0, 1),
        snippet: "f".to_string(),
    };
    let row = row_for_chunk(&chunk, &[]).unwrap();
    assert_eq!(row.tags, "[]");
}

#[test]
fn unreadable_tags_read_back_as_none() {
    let e = entry_from_row(1, "n".to_string(), "weird", "not json", "p".to_string(), "s".to_string());
    assert!(e.tags.is_empty());
    assert_eq!(e.kind, ChunkKind::Enum);
    let e = entry_from_row(2, "n".to_string(), "trait", "[\"a\"]", "p".to_string(), "s".to_string());
    assert_eq!(e.tags, vec!["a".to_string()]);
    assert_eq!(e.kind, ChunkKind::Trait);
}

#[test]
fn error_messages() {
    assert_eq!(RascalError::Config("x".to_string()).to_string(), "config error: x");
    assert_eq!(
        RascalError::Parse { path: "a.rs".to_string(), msg: "bad".to_string() }.to_string(),
        "parse error in a.rs: bad"
    );
    assert_eq!(RascalError::Corpus("c".to_string()).to_string(), "corpus error: c");
    assert_eq!(RascalError::Embedder("e".to_string()).to_string(), "embedder error: e");
    assert_eq!(RascalError::NoChunks("f.rs".to_string()).to_string(), "no chunks found in f.rs");
}

#[test]
fn stub_embedder_dimension() {
    assert_eq!(StubEmbedder::default().dim, 1536);
}

#[test]
fn string_comparison_and_text_slices() {
    assert!(str_eq("héllo", "héllo"));
    assert!(!str_eq("héllo", "hello"));
    assert!(!str_eq("ab", "abc"));
    let bytes = "aé b".as_bytes();
    assert_eq!(slice_text(bytes, 0, 3), Some("aé"));
    assert_eq!(slice_text(bytes, 0, 2), None);
    assert_eq!(slice_text(bytes, 4, 5), Some("b"));
    assert_eq!(slice_text(bytes, 2, 2), Some(""));
}

#[test]
fn syntax_tree_fields_and_ranges() {
    let tree = node(
        "function_item",
        None,
        0,
        10,
        vec![
            node("identifier", Some("name"), 3, 4, vec![]),
            node("identifier", Some("name"), 5, 6, vec![]),
            node("block", Some("body"), 7, 10, vec![]),
        ],
    );
    assert_eq!(tree.child_by_field_name("name").unwrap().start, 3);
    assert_eq!(tree.child_by_field_name("body").unwrap().start, 7);
    assert!(tree.child_by_field_name("type").is_none());
    assert!(tree.fits_in(10));
    assert!(!tree.fits_in(9));
    let bad = node("x", None, 0, 2, vec![node("y", None, 2, 1, vec![])]);
    assert!(!bad.fits_in(5));
}

#[test]
fn names_of_hand_built_nodes() {
    let source = b"impl Tr for Ty {} struct S;";
    let imp = node(
        "impl_item",
        None,
        0,
        17,
        vec![
            node("type_identifier", Some("trait"), 5, 7, vec![]),
            node("type_identifier", Some("type"), 12, 14, vec![]),
        ],
    );
    assert_eq!(extract_name(&imp, source, ChunkKind::ImplBlock), "impl Tr for Ty");
    let inherent = node("impl_item", None, 0, 17, vec![node("type_identifier", Some("type"), 12, 14, vec![])]);
    assert_eq!(extract_name(&inherent, source, ChunkKind::ImplBlock), "impl Ty");
    let bare = node("impl_item", None, 0, 17, vec![]);
    assert_eq!(extract_name(&bare, source, ChunkKind::ImplBlock), "impl <unknown>");
    let st = node("struct_item", None, 18, 27, vec![node("type_identifier", Some("name"), 25, 26, vec![])]);
    assert_eq!(extract_name(&st, source, ChunkKind::Struct), "S");
    assert_eq!(extract_name(&bare, source, ChunkKind::Function), "<unknown>");
    assert_eq!(node_chunk_kind(&st), Some(ChunkKind::Struct));
    assert_eq!(node_chunk_kind(&node("mod_item", None, 0, 0, vec![])), None);
}

#[test]
fn chunk_needs_utf8_text() {
    let source: &[u8] = &[b'f', 0xff, b'g'];
    let n = node("function_item", None, 0, 3, vec![]);
    assert!(build_chunk(&n, source, "a.rs", ChunkKind::Function).is_none());
    let ok = node("function_item", None, 2, 3, vec![]);
    let c = build_chunk(&ok, source, "a.rs", ChunkKind::Function).unwrap();
    assert_eq!(c.snippet, "g");
    assert_eq!(c.name, "<unknown>");
    assert_eq!(c.byte_range, (2, 3));
    assert_eq!(c.source_path, "a.rs");
}

#[test]
fn impl_functions_come_before_their_impl_block() {
    let source = "impl A { fn f() {} }";
    let chunker = TreeSitterChunker { kinds: all_kinds() };
    let chunks = chunker.chunk("a.rs", source.as_bytes()).unwrap();
    let names: Vec<&str> = chunks.iter().map(|c| c.name.as_str()).collect();
    assert_eq!(names, vec!["f", "impl A"]);
    assert_eq!(chunks[1].byte_range, (0, source.len()));
    assert_eq!(chunks[1].snippet, source);
}

#[test]
fn impl_functions_only_when_functions_are_wanted() {
    let source = "impl A { fn f() {} }";
    let chunker = TreeSitterChunker { kinds: vec![ChunkKind::ImplBlock] };
    let chunks = chunker.chunk("a.rs", source.as_bytes()).unwrap();
    assert_eq!(chunks.len(), 1);
    assert_eq!(chunks[0].kind, ChunkKind::ImplBlock);
}

#[test]
fn matched_items_are_not_searched_further_but_modules_are() {
    let source = "fn outer() { fn inner() {} }\nmod m { struct S; fn g() {} }";
    let chunker = TreeSitterChunker { kinds: all_kinds() };
    let chunks = chunker.chunk("a.rs", source.as_bytes()).unwrap();
    let names: Vec<&str> = chunks.iter().map(|c| c.name.as_str()).collect();
    assert_eq!(names, vec!["outer", "S", "g"]);
    let chunker = TreeSitterChunker { kinds: vec![ChunkKind::Struct] };
    let chunks = chunker.chunk("a.rs", source.as_bytes()).unwrap();
    assert_eq!(chunks.len(), 1);
    assert_eq!(chunks[0].name, "S");
}

#[test]
fn chunks_from_a_hand_built_tree() {
    let source = b"fn a() {}";
    let tree = node(
        "source_file",
        None,
        0,
        9,
        vec![node("function_item", None, 0, 9, vec![node("identifier", Some("name"), 3, 4, vec![])])],
    );
    let chunker = TreeSitterChunker { kinds: vec![ChunkKind::Function] };
    let chunks = chunker.chunks_from_tree(&tree, "f.rs", source);
    assert_eq!(chunks.len(), 1);
    assert_eq!(chunks[0].name, "a");
    assert_eq!(chunks[0].snippet, "fn a() {}");
    let none = TreeSitterChunker { kinds: vec![] };
    assert!(none.chunks_from_tree(&tree, "f.rs", source).is_empty());
}

#[test]
fn empty_source_has_no_chunks() {
    let chunker = TreeSitterChunker { kinds: all_kinds() };
    assert!(chunker.chunk("e.rs", b"").unwrap().is_empty());
}

#[test]
fn chunk_clone_keeps_fields() {
    let c = Chunk {
        name: "n".to_string(),
        kind: ChunkKind::Trait,
        source_path: "p".to_string(),
        byte_range: (1, 2),
        snippet: "s".to_string(),
    };
    let d = c.clone();
    assert_eq!(d.name, "n");
    assert_eq!(d.kind, ChunkKind::Trait);
    assert_eq!(d.byte_range, (1, 2));
}

#[test]
fn corpus_listing_lines() {
    let e = CorpusEntry {
        id: 7,
        name: "greet".to_string(),
        kind: ChunkKind::Function,
        tags: vec![],
        source_path: "a.rs".to_string(),
        snippet: String::new(),
    };
    assert_eq!(entry_line(&e), "   7  function      greet  (a.rs)");
    assert_eq!(entry_line(&e), format!("{:>4}  {:12}  {}  ({})", 7, "function", "greet", "a.rs"));
    let long = CorpusEntry { id: 123456, kind: ChunkKind::ImplBlock, ..e.clone() };
    assert_eq!(entry_line(&long), format!("{:>4}  {:12}  {}  ({})", 123456, "impl_block", "greet", "a.rs"));
    assert_eq!(i64_decimal(-12345), "-12345");
    assert_eq!(i64_decimal(i64::MIN), i64::MIN.to_string());
    assert_eq!(i64_decimal(0), "0");
    assert_eq!(usize_decimal(1000), "1000");
    assert_eq!(index_summary(3, 1), "rascal: indexed 3 chunks from 1 file(s)");
    assert_eq!(entries_summary(12), "rascal: 12 entries");
}

#[test]
fn a_check_passes_when_every_chunk_passes() {
    assert!(rascal::scorer::all_pass(&[]));
    assert!(rascal::scorer::all_pass(&[true, true]));
    assert!(!rascal::scorer::all_pass(&[true, false, true]));
}

#[test]
fn table_cell_texts() {
    assert_eq!(rascal::report::pass_mark(true), "✓");
    assert_eq!(rascal::report::pass_mark(false), "✗");
    assert_eq!(rascal::report::nearest_cell(&None), "—");
    assert_eq!(rascal::report::nearest_cell(&Some("greet".to_string())), "greet");
}

#[test]
fn chunking_a_readable_file_succeeds() {
    let chunker = TreeSitterChunker { kinds: all_kinds() };
    assert!(chunker.chunk("broken.rs", "fn (".as_bytes()).is_ok());
    assert!(rascal::syntax::RustParser::new().is_ok());
}

#[test]
fn tags_from_what_serde_json_read() {
    assert!(rascal::corpus::tags_from_parsed(None).is_empty());
    assert_eq!(
        rascal::corpus::tags_from_parsed(Some(vec!["a".to_string(), "b".to_string()])),
        vec!["a".to_string(), "b".to_string()]
    );
}

#[test]
fn a_check_without_chunks_passes_with_a_notice() {
    match rascal::scorer::plan_check("empty.rs", 0) {
        rascal::scorer::CheckPlan::Done { notice, passed } => {
            assert!(passed);
            assert_eq!(notice, "rascal: no chunks found in empty.rs");
        }
        rascal::scorer::CheckPlan::Score => panic!("expected a finished check"),
    }
    assert!(matches!(rascal::scorer::plan_check("a.rs", 3), rascal::scorer::CheckPlan::Score));
}
