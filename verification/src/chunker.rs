use vstd::prelude::*;

use crate::domain::{chunk_views, contains_kind, Chunk, ChunkKind, ChunkView, Chunker, RascalError};
use crate::syntax::{field_child, fits, parse_rust, rust_syntax_tree, RustParser, SyntaxNode};
use crate::text::{lemma_concat_contains, slice_text, str_eq, text_in};

verus! {

/// Splits Rust source into chunks of the kinds in `kinds`, using tree-sitter's Rust grammar.
pub struct TreeSitterChunker {
    pub kinds: Vec<ChunkKind>,
}

/// The chunk kind that a syntax node of grammar kind `kind` stands for, if any.
pub open spec fn chunk_kind_of(kind: Seq<char>) -> Option<ChunkKind> {
    if kind == "function_item"@ {
        Some(ChunkKind::Function)
    } else if kind == "impl_item"@ {
        Some(ChunkKind::ImplBlock)
    } else if kind == "trait_item"@ {
        Some(ChunkKind::Trait)
    } else if kind == "struct_item"@ {
        Some(ChunkKind::Struct)
    } else if kind == "enum_item"@ {
        Some(ChunkKind::Enum)
    } else {
        None
    }
}

/// The source text of a node, or `<unknown>` where there is no node or its text is not UTF-8.
pub open spec fn text_or_unknown(source: Seq<u8>, n: Option<SyntaxNode>) -> Seq<char> {
    match n {
        Some(c) => match text_in(source, c.start as int, c.end as int) {
            Some(t) => t,
            None => "<unknown>"@,
        },
        None => "<unknown>"@,
    }
}

/// The name of a chunk: the text of the node's `name` field, or, for an impl block,
/// `impl <trait> for <type>` or `impl <type>` from its `trait` and `type` fields.
pub open spec fn chunk_name(node: SyntaxNode, source: Seq<u8>, kind: ChunkKind) -> Seq<char> {
    if kind == ChunkKind::ImplBlock {
        let ty = text_or_unknown(source, field_child(node.children@, "type"@));
        match field_child(node.children@, "trait"@) {
            Some(t) => match text_in(source, t.start as int, t.end as int) {
                Some(tt) => "impl "@ + tt + " for "@ + ty,
                None => "impl "@ + ty,
            },
            None => "impl "@ + ty,
        }
    } else {
        text_or_unknown(source, field_child(node.children@, "name"@))
    }
}

/// The chunk that a node gives, when its text is UTF-8.
pub open spec fn chunk_of(node: SyntaxNode, source: Seq<u8>, path: Seq<char>, kind: ChunkKind) -> Option<ChunkView> {
    match text_in(source, node.start as int, node.end as int) {
        Some(snippet) => Some(ChunkView {
            name: chunk_name(node, source, kind),
            kind,
            source_path: path,
            byte_range: (node.start, node.end),
            snippet,
        }),
        None => None,
    }
}

/// The function chunks among `items`, in order.
pub open spec fn functions_in(items: Seq<SyntaxNode>, source: Seq<u8>, path: Seq<char>) -> Seq<ChunkView>
    decreases items.len(),
{
    if items.len() == 0 {
        seq![]
    } else {
        let rest = functions_in(items.drop_last(), source, path);
        let it = items.last();
        if it.kind@ == "function_item"@ {
            match chunk_of(it, source, path, ChunkKind::Function) {
                Some(c) => rest.push(c),
                None => rest,
            }
        } else {
            rest
        }
    }
}

/// The function chunks inside the declaration lists among the children of an impl block.
pub open spec fn impl_functions(children: Seq<SyntaxNode>, source: Seq<u8>, path: Seq<char>) -> Seq<ChunkView>
    decreases children.len(),
{
    if children.len() == 0 {
        seq![]
    } else {
        let rest = impl_functions(children.drop_last(), source, path);
        let c = children.last();
        if c.kind@ == "declaration_list"@ {
            rest + functions_in(c.children@, source, path)
        } else {
            rest
        }
    }
}

/// The chunks found among the nodes `cs`, in source order: a node of a wanted kind gives its
/// chunk (preceded, for an impl block when functions are wanted, by the functions declared
/// in it) and is not searched further; any other node is searched through its children.
pub open spec fn chunks_in(cs: Seq<SyntaxNode>, source: Seq<u8>, path: Seq<char>, wanted: Seq<ChunkKind>) -> Seq<ChunkView>
    decreases cs,
{
    if cs.len() == 0 {
        seq![]
    } else {
        chunks_in(cs.drop_last(), source, path, wanted) + chunks_of_node(cs.last(), source, path, wanted)
    }
}

/// The chunks that one node gives, as described at `chunks_in`.
pub open spec fn chunks_of_node(n: SyntaxNode, source: Seq<u8>, path: Seq<char>, wanted: Seq<ChunkKind>) -> Seq<ChunkView>
    decreases n,
{
    let k = chunk_kind_of(n.kind@);
    if k is Some && wanted.contains(k->0) {
        match chunk_of(n, source, path, k->0) {
            Some(c) => {
                let inner = if k->0 == ChunkKind::ImplBlock && wanted.contains(ChunkKind::Function) {
                    impl_functions(n.children@, source, path)
                } else {
                    seq![]
                };
                inner.push(c)
            },
            None => seq![],
        }
    } else {
        chunks_in(n.children@, source, path, wanted)
    }
}

/// The chunk kind that a syntax node stands for, if any.
pub fn node_chunk_kind(node: &SyntaxNode) -> (r: Option<ChunkKind>)
    ensures
        r == chunk_kind_of(node.kind@),
{
    let k = node.kind.as_str();
    if str_eq(k, "function_item") {
        Some(ChunkKind::Function)
    } else if str_eq(k, "impl_item") {
        Some(ChunkKind::ImplBlock)
    } else if str_eq(k, "trait_item") {
        Some(ChunkKind::Trait)
    } else if str_eq(k, "struct_item") {
        Some(ChunkKind::Struct)
    } else if str_eq(k, "enum_item") {
        Some(ChunkKind::Enum)
    } else {
        None
    }
}

/// The text of an optional node, or `<unknown>`.
fn text_or_unknown_of(source: &[u8], n: Option<&SyntaxNode>) -> (r: String)
    requires
        n matches Some(c) ==> c.start <= c.end <= source@.len(),
    ensures
        r@ == text_or_unknown(source@, match n { Some(c) => Some(*c), None => None }),
{
    match n {
        Some(c) => match slice_text(source, c.start, c.end) {
            Some(t) => t.to_owned(),
            None => String::from_str("<unknown>"),
        },
        None => String::from_str("<unknown>"),
    }
}

/// The name of the chunk that `node` gives, as in `chunk_name`.
pub fn extract_name(node: &SyntaxNode, source: &[u8], kind: ChunkKind) -> (r: String)
    requires
        fits(*node, source@.len()),
    ensures
        r@ == chunk_name(*node, source@, kind),
{
    if kind == ChunkKind::ImplBlock {
        let trait_node = node.child_by_field_name("trait");
        let type_node = node.child_by_field_name("type");
        proof {
            lemma_field_child_fits(node.children@, "trait"@, source@.len());
            lemma_field_child_fits(node.children@, "type"@, source@.len());
        }
        let type_text = text_or_unknown_of(source, type_node);
        let trait_text = match trait_node {
            Some(t) => slice_text(source, t.start, t.end),
            None => None,
        };
        let mut s = String::from_str("impl ");
        match trait_text {
            Some(tt) => {
                s.append(tt);
                s.append(" for ");
                s.append(type_text.as_str());
            },
            None => {
                s.append(type_text.as_str());
            },
        }
        s
    } else {
        let name_node = node.child_by_field_name("name");
        proof {
            lemma_field_child_fits(node.children@, "name"@, source@.len());
        }
        text_or_unknown_of(source, name_node)
    }
}

/// The chunk that `node` gives as a chunk of kind `kind`, as in `chunk_of`.
pub fn build_chunk(node: &SyntaxNode, source: &[u8], path: &str, kind: ChunkKind) -> (r: Option<Chunk>)
    requires
        fits(*node, source@.len()),
    ensures
        match r {
            Some(c) => chunk_of(*node, source@, path@, kind) == Some(c@),
            None => chunk_of(*node, source@, path@, kind) is None,
        },
{
    let snippet = match slice_text(source, node.start, node.end) {
        Some(t) => t.to_owned(),
        None => return None,
    };
    let name = extract_name(node, source, kind);
    Some(Chunk {
        name,
        kind,
        source_path: path.to_owned(),
        byte_range: (node.start, node.end),
        snippet,
    })
}

/// Appending one chunk appends its view.
proof fn lemma_views_push(s: Seq<Chunk>, c: Chunk)
    ensures
        chunk_views(s.push(c)) == chunk_views(s).push(c@),
{
    assert(chunk_views(s.push(c)) =~= chunk_views(s).push(c@));
}

/// Appends the function chunks declared in the declaration lists of an impl block.
pub fn collect_impl_functions(impl_node: &SyntaxNode, source: &[u8], path: &str, out: &mut Vec<Chunk>)
    requires
        fits(*impl_node, source@.len()),
    ensures
        chunk_views(final(out)@) == chunk_views(old(out)@) + impl_functions(impl_node.children@, source@, path@),
{
    let children = &impl_node.children;
    let mut i: usize = 0;
    assert(children@.take(0) =~= Seq::<SyntaxNode>::empty());
    assert(chunk_views(out@) + impl_functions(children@.take(0), source@, path@) =~= chunk_views(out@));
    while i < children.len()
        invariant
            i <= children@.len(),
            fits(*impl_node, source@.len()),
            children@ == impl_node.children@,
            chunk_views(out@) == chunk_views(old(out)@) + impl_functions(children@.take(i as int), source@, path@),
        decreases children@.len() - i,
    {
        let child = &children[i];
        assert(fits(children@[i as int], source@.len()));
        assert(children@.take(i + 1).drop_last() =~= children@.take(i as int));
        let ghost before = chunk_views(out@);
        if str_eq(child.kind.as_str(), "declaration_list") {
            let items = &child.children;
            let mut j: usize = 0;
            assert(items@.take(0) =~= Seq::<SyntaxNode>::empty());
            assert(before + functions_in(items@.take(0), source@, path@) =~= before);
            while j < items.len()
                invariant
                    j <= items@.len(),
                    items@ == child.children@,
                    fits(*child, source@.len()),
                    chunk_views(out@) == before + functions_in(items@.take(j as int), source@, path@),
                decreases items@.len() - j,
            {
                let item = &items[j];
                assert(fits(items@[j as int], source@.len()));
                assert(items@.take(j + 1).drop_last() =~= items@.take(j as int));
                if str_eq(item.kind.as_str(), "function_item") {
                    match build_chunk(item, source, path, ChunkKind::Function) {
                        Some(c) => {
                            proof { lemma_views_push(out@, c); }
                            out.push(c);
                        },
                        None => {},
                    }
                }
                j += 1;
            }
            assert(items@.take(items@.len() as int) =~= items@);
        }
        i += 1;
        assert(chunk_views(out@) =~= chunk_views(old(out)@) + impl_functions(children@.take(i as int), source@, path@));
    }
    assert(children@.take(children@.len() as int) =~= children@);
}

/// Appends the chunks found among the children of `node`, as in `chunks_in`.
pub fn collect_chunks(node: &SyntaxNode, source: &[u8], path: &str, wanted: &Vec<ChunkKind>, out: &mut Vec<Chunk>)
    requires
        fits(*node, source@.len()),
    ensures
        chunk_views(final(out)@) == chunk_views(old(out)@) + chunks_in(node.children@, source@, path@, wanted@),
    decreases node,
{
    let children = &node.children;
    let mut i: usize = 0;
    assert(children@.take(0) =~= Seq::<SyntaxNode>::empty());
    assert(chunk_views(out@) + chunks_in(children@.take(0), source@, path@, wanted@) =~= chunk_views(out@));
    while i < children.len()
        invariant
            i <= children@.len(),
            fits(*node, source@.len()),
            children@ == node.children@,
            chunk_views(out@) == chunk_views(old(out)@) + chunks_in(children@.take(i as int), source@, path@, wanted@),
        decreases children@.len() - i,
    {
        let child = &children[i];
        assert(fits(children@[i as int], source@.len()));
        assert(children@.take(i + 1).drop_last() =~= children@.take(i as int));
        let ghost before = chunk_views(out@);
        let mut matched = false;
        match node_chunk_kind(child) {
            Some(kind) => {
                if contains_kind(wanted, kind) {
                    matched = true;
                    match build_chunk(child, source, path, kind) {
                        Some(chunk) => {
                            if kind == ChunkKind::ImplBlock && contains_kind(wanted, ChunkKind::Function) {
                                collect_impl_functions(child, source, path, out);
                            } else {
                                assert(chunk_views(out@) =~= before + Seq::<ChunkView>::empty());
                            }
                            proof { lemma_views_push(out@, chunk); }
                            out.push(chunk);
                        },
                        None => {
                            assert(chunk_views(out@) =~= before + Seq::<ChunkView>::empty());
                        },
                    }
                }
            },
            None => {},
        }
        if !matched {
            collect_chunks(child, source, path, wanted, out);
        }
        assert(chunk_views(out@) =~= before + chunks_of_node(children@[i as int], source@, path@, wanted@));
        assert(children@.take(i + 1).last() == children@[i as int]);
        i += 1;
        assert(chunk_views(out@) =~= chunk_views(old(out)@) + chunks_in(children@.take(i as int), source@, path@, wanted@));
    }
    assert(children@.take(children@.len() as int) =~= children@);
}

impl TreeSitterChunker {
    /// The chunks of `source` (the bytes of the file `path`), given its syntax tree.
    pub fn chunks_from_tree(&self, tree: &SyntaxNode, path: &str, source: &[u8]) -> (r: Vec<Chunk>)
        requires
            fits(*tree, source@.len()),
        ensures
            chunk_views(r@) == chunks_in(tree.children@, source@, path@, self.kinds@),
            all_from_source(chunk_views(r@), source@, path@, self.kinds@),
    {
        proof {
            lemma_chunks_come_from_source(tree.children@, source@, path@, self.kinds@);
        }
        let mut out: Vec<Chunk> = Vec::new();
        collect_chunks(tree, source, path, &self.kinds, &mut out);
        assert(chunk_views(Seq::<Chunk>::empty()) =~= Seq::<ChunkView>::empty());
        assert(Seq::<ChunkView>::empty() + chunks_in(tree.children@, source@, path@, self.kinds@)
            =~= chunks_in(tree.children@, source@, path@, self.kinds@));
        out
    }

    /// Parses `source` (the bytes of the file `path`) with tree-sitter's Rust grammar and
    /// collects its chunks. The parser always gives a tree; chunking succeeds exactly when
    /// that tree lies inside the source, and otherwise the error is a parse error that
    /// names `path`.
    pub fn chunk_source(&self, path: &str, source: &[u8]) -> (r: Result<Vec<Chunk>, RascalError>)
        ensures
            match r {
                Ok(cs) => rust_syntax_tree(source@) matches Some(t) && fits(t, source@.len())
                    && chunk_views(cs@) == chunks_in(t.children@, source@, path@, self.kinds@)
                    && all_from_source(chunk_views(cs@), source@, path@, self.kinds@),
                Err(e) => e matches RascalError::Parse { path: p, .. } && p@ == path@,
            },
            rust_syntax_tree(source@) is None ==> r is Err,
            (rust_syntax_tree(source@) matches Some(t) && !fits(t, source@.len())) ==> r is Err,
            rust_syntax_tree(source@) is Some,
            (rust_syntax_tree(source@) matches Some(t) && fits(t, source@.len())) ==> r is Ok,
    {
        let mut parser = match RustParser::new() {
            Ok(p) => p,
            Err(msg) => return Err(RascalError::Parse { path: path.to_owned(), msg }),
        };
        let tree = match parse_rust(&mut parser, source) {
            Some(t) => t,
            None => {
                return Err(
                    RascalError::Parse { path: path.to_owned(), msg: String::from_str("tree-sitter returned no tree") },
                )
            },
        };
        if !tree.fits_in(source.len()) {
            return Err(
                RascalError::Parse { path: path.to_owned(), msg: String::from_str("syntax tree lies outside the source") },
            );
        }
        Ok(self.chunks_from_tree(&tree, path, source))
    }
}

impl Chunker for TreeSitterChunker {
    fn chunk(&self, path: &str, source: &[u8]) -> (r: Result<Vec<Chunk>, RascalError>)
        ensures
            match r {
                Ok(cs) => rust_syntax_tree(source@) matches Some(t) && fits(t, source@.len())
                    && chunk_views(cs@) == chunks_in(t.children@, source@, path@, self.kinds@)
                    && all_from_source(chunk_views(cs@), source@, path@, self.kinds@),
                Err(e) => e matches RascalError::Parse { path: p, .. } && p@ == path@,
            },
            rust_syntax_tree(source@) is None ==> r is Err,
            (rust_syntax_tree(source@) matches Some(t) && !fits(t, source@.len())) ==> r is Err,
            rust_syntax_tree(source@) is Some,
            (rust_syntax_tree(source@) matches Some(t) && fits(t, source@.len())) ==> r is Ok,
    {
        self.chunk_source(path, source)
    }
}

/// A child found by field lies inside the source whenever all children do.
pub proof fn lemma_field_child_fits(cs: Seq<SyntaxNode>, name: Seq<char>, len: nat)
    requires
        forall|i: int| 0 <= i < cs.len() ==> fits(#[trigger] cs[i], len),
    ensures
        field_child(cs, name) matches Some(c) ==> fits(c, len),
    decreases cs.len(),
{
    if cs.len() > 0 {
        assert(fits(cs[0], len));
        let rest = cs.drop_first();
        assert forall|i: int| 0 <= i < rest.len() implies fits(#[trigger] rest[i], len) by {
            assert(rest[i] == cs[i + 1]);
        }
        lemma_field_child_fits(rest, name, len);
    }
}

/// A chunk that comes from the source: its kind is wanted, it names `path`, its byte range
/// lies inside the source and its snippet is the text of that range.
pub open spec fn from_source(c: ChunkView, source: Seq<u8>, path: Seq<char>, wanted: Seq<ChunkKind>) -> bool {
    &&& wanted.contains(c.kind)
    &&& c.source_path == path
    &&& c.byte_range.0 <= c.byte_range.1 <= source.len()
    &&& text_in(source, c.byte_range.0 as int, c.byte_range.1 as int) == Some(c.snippet)
}

/// Every chunk of `s` comes from the source.
pub open spec fn all_from_source(s: Seq<ChunkView>, source: Seq<u8>, path: Seq<char>, wanted: Seq<ChunkKind>) -> bool {
    forall|j: int| 0 <= j < s.len() ==> from_source(#[trigger] s[j], source, path, wanted)
}

proof fn lemma_all_from_source_concat(a: Seq<ChunkView>, b: Seq<ChunkView>, source: Seq<u8>, path: Seq<char>, wanted: Seq<ChunkKind>)
    requires
        all_from_source(a, source, path, wanted),
        all_from_source(b, source, path, wanted),
    ensures
        all_from_source(a + b, source, path, wanted),
{
    assert forall|j: int| 0 <= j < (a + b).len() implies from_source(#[trigger] (a + b)[j], source, path, wanted) by {
        if j < a.len() {
            assert((a + b)[j] == a[j]);
        } else {
            assert((a + b)[j] == b[j - a.len()]);
        }
    }
}

proof fn lemma_chunk_of_from_source(n: SyntaxNode, source: Seq<u8>, path: Seq<char>, wanted: Seq<ChunkKind>, k: ChunkKind)
    requires
        fits(n, source.len()),
        wanted.contains(k),
    ensures
        chunk_of(n, source, path, k) matches Some(c) ==> from_source(c, source, path, wanted) && c.kind == k,
{
}

proof fn lemma_all_fit_drop_last(cs: Seq<SyntaxNode>, len: nat)
    requires
        cs.len() > 0,
        forall|i: int| 0 <= i < cs.len() ==> fits(#[trigger] cs[i], len),
    ensures
        forall|i: int| 0 <= i < cs.drop_last().len() ==> fits(#[trigger] cs.drop_last()[i], len),
        fits(cs.last(), len),
{
    assert forall|i: int| 0 <= i < cs.drop_last().len() implies fits(#[trigger] cs.drop_last()[i], len) by {
        assert(cs.drop_last()[i] == cs[i]);
    }
}

proof fn lemma_functions_in_from_source(items: Seq<SyntaxNode>, source: Seq<u8>, path: Seq<char>, wanted: Seq<ChunkKind>)
    requires
        forall|i: int| 0 <= i < items.len() ==> fits(#[trigger] items[i], source.len()),
        wanted.contains(ChunkKind::Function),
    ensures
        all_from_source(functions_in(items, source, path), source, path, wanted),
    decreases items.len(),
{
    if items.len() > 0 {
        lemma_all_fit_drop_last(items, source.len());
        lemma_functions_in_from_source(items.drop_last(), source, path, wanted);
        lemma_chunk_of_from_source(items.last(), source, path, wanted, ChunkKind::Function);
        let rest = functions_in(items.drop_last(), source, path);
        match chunk_of(items.last(), source, path, ChunkKind::Function) {
            Some(c) => {
                lemma_all_from_source_concat(rest, seq![c], source, path, wanted);
                assert(rest + seq![c] =~= rest.push(c));
            },
            None => {},
        }
    }
}

proof fn lemma_impl_functions_from_source(children: Seq<SyntaxNode>, source: Seq<u8>, path: Seq<char>, wanted: Seq<ChunkKind>)
    requires
        forall|i: int| 0 <= i < children.len() ==> fits(#[trigger] children[i], source.len()),
        wanted.contains(ChunkKind::Function),
    ensures
        all_from_source(impl_functions(children, source, path), source, path, wanted),
    decreases children.len(),
{
    if children.len() > 0 {
        lemma_all_fit_drop_last(children, source.len());
        lemma_impl_functions_from_source(children.drop_last(), source, path, wanted);
        let c = children.last();
        if c.kind@ == "declaration_list"@ {
            lemma_functions_in_from_source(c.children@, source, path, wanted);
            lemma_all_from_source_concat(
                impl_functions(children.drop_last(), source, path),
                functions_in(c.children@, source, path),
                source, path, wanted,
            );
        }
    }
}

/// Law: every chunk that the chunker finds among nodes that lie inside the source is of a
/// wanted kind, names the file it was read from, and has as snippet exactly the text of
/// its byte range, which lies inside the source (a snippet is a piece of the source).
pub proof fn lemma_chunks_come_from_source(cs: Seq<SyntaxNode>, source: Seq<u8>, path: Seq<char>, wanted: Seq<ChunkKind>)
    requires
        forall|i: int| 0 <= i < cs.len() ==> fits(#[trigger] cs[i], source.len()),
    ensures
        all_from_source(chunks_in(cs, source, path, wanted), source, path, wanted),
    decreases cs,
{
    if cs.len() > 0 {
        lemma_all_fit_drop_last(cs, source.len());
        lemma_chunks_come_from_source(cs.drop_last(), source, path, wanted);
        lemma_node_chunks_come_from_source(cs.last(), source, path, wanted);
        lemma_all_from_source_concat(
            chunks_in(cs.drop_last(), source, path, wanted),
            chunks_of_node(cs.last(), source, path, wanted),
            source, path, wanted,
        );
    }
}

/// The law of `lemma_chunks_come_from_source`, for the chunks of one node.
pub proof fn lemma_node_chunks_come_from_source(n: SyntaxNode, source: Seq<u8>, path: Seq<char>, wanted: Seq<ChunkKind>)
    requires
        fits(n, source.len()),
    ensures
        all_from_source(chunks_of_node(n, source, path, wanted), source, path, wanted),
    decreases n,
{
    let k = chunk_kind_of(n.kind@);
    if k is Some && wanted.contains(k->0) {
        lemma_chunk_of_from_source(n, source, path, wanted, k->0);
        match chunk_of(n, source, path, k->0) {
            Some(c) => {
                let inner = if k->0 == ChunkKind::ImplBlock && wanted.contains(ChunkKind::Function) {
                    lemma_impl_functions_from_source(n.children@, source, path, wanted);
                    impl_functions(n.children@, source, path)
                } else {
                    seq![]
                };
                lemma_all_from_source_concat(inner, seq![c], source, path, wanted);
                assert(inner + seq![c] =~= inner.push(c));
            },
            None => {},
        }
    } else {
        lemma_chunks_come_from_source(n.children@, source, path, wanted);
    }
}

/// The literal kinds of syntax node that the laws below speak of differ from each other.
proof fn lemma_node_kinds_differ()
    ensures
        chunk_kind_of("function_item"@) == Some(ChunkKind::Function),
        chunk_kind_of("impl_item"@) == Some(ChunkKind::ImplBlock),
        chunk_kind_of("declaration_list"@) is None,
{
    reveal_strlit("function_item");
    reveal_strlit("impl_item");
    reveal_strlit("trait_item");
    reveal_strlit("struct_item");
    reveal_strlit("enum_item");
    reveal_strlit("declaration_list");
    assert("impl_item"@[0] != "function_item"@[0]);
    assert("declaration_list"@[0] != "function_item"@[0]);
    assert("declaration_list"@[0] != "impl_item"@[0]);
    assert("declaration_list"@[0] != "trait_item"@[0]);
    assert("declaration_list"@[0] != "struct_item"@[0]);
    assert("declaration_list"@[0] != "enum_item"@[0]);
}

/// Law: every chunk that one of the nodes `cs` gives is among the chunks found in `cs`.
pub proof fn lemma_chunks_in_contains_node(cs: Seq<SyntaxNode>, i: int, source: Seq<u8>, path: Seq<char>, wanted: Seq<ChunkKind>)
    requires
        0 <= i < cs.len(),
    ensures
        forall|x: ChunkView| chunks_of_node(cs[i], source, path, wanted).contains(x)
            ==> #[trigger] chunks_in(cs, source, path, wanted).contains(x),
    decreases cs.len(),
{
    let a = chunks_in(cs.drop_last(), source, path, wanted);
    let b = chunks_of_node(cs.last(), source, path, wanted);
    lemma_concat_contains(a, b);
    if i < cs.len() - 1 {
        lemma_chunks_in_contains_node(cs.drop_last(), i, source, path, wanted);
        assert(cs.drop_last()[i] == cs[i]);
    }
}

/// Law: a node whose kind is not a wanted chunk kind gives no chunk of its own and is searched
/// through: it gives exactly the chunks found among its children.
pub proof fn lemma_unwanted_node_is_searched(n: SyntaxNode, source: Seq<u8>, path: Seq<char>, wanted: Seq<ChunkKind>)
    requires
        !(chunk_kind_of(n.kind@) matches Some(k) && wanted.contains(k)),
    ensures
        chunks_of_node(n, source, path, wanted) == chunks_in(n.children@, source, path, wanted),
{
}

/// Law: a node of a wanted kind whose text is UTF-8 gives its chunk, as the last of its chunks.
pub proof fn lemma_wanted_node_gives_its_chunk(n: SyntaxNode, source: Seq<u8>, path: Seq<char>, wanted: Seq<ChunkKind>, k: ChunkKind)
    requires
        chunk_kind_of(n.kind@) == Some(k),
        wanted.contains(k),
        chunk_of(n, source, path, k) is Some,
    ensures
        chunks_of_node(n, source, path, wanted).len() > 0,
        chunks_of_node(n, source, path, wanted).last() == chunk_of(n, source, path, k)->0,
{
}

/// Every function item among `items` whose text is UTF-8 gives a chunk among `functions_in(items)`.
proof fn lemma_functions_in_contains(items: Seq<SyntaxNode>, i: int, source: Seq<u8>, path: Seq<char>)
    requires
        0 <= i < items.len(),
        items[i].kind@ == "function_item"@,
        chunk_of(items[i], source, path, ChunkKind::Function) is Some,
    ensures
        functions_in(items, source, path).contains(chunk_of(items[i], source, path, ChunkKind::Function)->0),
    decreases items.len(),
{
    let rest = functions_in(items.drop_last(), source, path);
    let c = chunk_of(items[i], source, path, ChunkKind::Function)->0;
    if i == items.len() - 1 {
        assert(rest.push(c)[rest.len() as int] == c);
    } else {
        lemma_functions_in_contains(items.drop_last(), i, source, path);
        assert(items.drop_last()[i] == items[i]);
        let j = choose|j: int| 0 <= j < rest.len() && rest[j] == c;
        match chunk_of(items.last(), source, path, ChunkKind::Function) {
            Some(d) => {
                if items.last().kind@ == "function_item"@ {
                    assert(rest.push(d)[j] == c);
                }
            },
            None => {},
        }
    }
}

/// Every function item in a declaration list among `children` gives a chunk among
/// `impl_functions(children)`.
proof fn lemma_impl_functions_contains(children: Seq<SyntaxNode>, j: int, i: int, source: Seq<u8>, path: Seq<char>)
    requires
        0 <= j < children.len(),
        children[j].kind@ == "declaration_list"@,
        0 <= i < children[j].children@.len(),
        children[j].children@[i].kind@ == "function_item"@,
        chunk_of(children[j].children@[i], source, path, ChunkKind::Function) is Some,
    ensures
        impl_functions(children, source, path).contains(
            chunk_of(children[j].children@[i], source, path, ChunkKind::Function)->0,
        ),
    decreases children.len(),
{
    let rest = impl_functions(children.drop_last(), source, path);
    let last = children.last();
    let c = chunk_of(children[j].children@[i], source, path, ChunkKind::Function)->0;
    if j == children.len() - 1 {
        lemma_functions_in_contains(last.children@, i, source, path);
        lemma_concat_contains(rest, functions_in(last.children@, source, path));
    } else {
        lemma_impl_functions_contains(children.drop_last(), j, i, source, path);
        assert(children.drop_last()[j] == children[j]);
        lemma_concat_contains(rest, functions_in(last.children@, source, path));
    }
}

/// Law: when functions are wanted, every method declared in an impl block (a function item
/// in one of its declaration lists, with UTF-8 text) is among the chunks that the impl block
/// gives, each with its own byte range. This holds whether or not impl blocks are wanted:
/// an unwanted impl block is searched through, and a wanted one (whose text is UTF-8) gives
/// its methods before itself.
pub proof fn lemma_impl_methods_are_found(n: SyntaxNode, j: int, i: int, source: Seq<u8>, path: Seq<char>, wanted: Seq<ChunkKind>)
    requires
        n.kind@ == "impl_item"@,
        wanted.contains(ChunkKind::Function),
        0 <= j < n.children@.len(),
        n.children@[j].kind@ == "declaration_list"@,
        0 <= i < n.children@[j].children@.len(),
        n.children@[j].children@[i].kind@ == "function_item"@,
        chunk_of(n.children@[j].children@[i], source, path, ChunkKind::Function) is Some,
        wanted.contains(ChunkKind::ImplBlock) ==> chunk_of(n, source, path, ChunkKind::ImplBlock) is Some,
    ensures
        chunks_of_node(n, source, path, wanted).contains(
            chunk_of(n.children@[j].children@[i], source, path, ChunkKind::Function)->0,
        ),
        chunk_of(n.children@[j].children@[i], source, path, ChunkKind::Function)->0.byte_range
            == (n.children@[j].children@[i].start, n.children@[j].children@[i].end),
{
    lemma_node_kinds_differ();
    let d = n.children@[j];
    let f = d.children@[i];
    let c = chunk_of(f, source, path, ChunkKind::Function)->0;
    if wanted.contains(ChunkKind::ImplBlock) {
        lemma_impl_functions_contains(n.children@, j, i, source, path);
        let fs = impl_functions(n.children@, source, path);
        let cn = chunk_of(n, source, path, ChunkKind::ImplBlock)->0;
        let k = choose|k: int| 0 <= k < fs.len() && fs[k] == c;
        assert(fs.push(cn)[k] == c);
    } else {
        lemma_unwanted_node_is_searched(n, source, path, wanted);
        lemma_unwanted_node_is_searched(d, source, path, wanted);
        lemma_chunks_in_contains_node(d.children@, i, source, path, wanted);
        lemma_chunks_in_contains_node(n.children@, j, source, path, wanted);
        lemma_wanted_node_gives_its_chunk(f, source, path, wanted, ChunkKind::Function);
        let fc = chunks_of_node(f, source, path, wanted);
        assert(fc[fc.len() - 1] == c);
        assert(fc.contains(c));
    }
}

/// Law: when functions are wanted, every method of an impl block that stands among the
/// nodes `cs` (such as the top-level items of a file) is among the chunks found in `cs`.
pub proof fn lemma_methods_of_listed_impl_are_found(
    cs: Seq<SyntaxNode>,
    p: int,
    j: int,
    i: int,
    source: Seq<u8>,
    path: Seq<char>,
    wanted: Seq<ChunkKind>,
)
    requires
        0 <= p < cs.len(),
        cs[p].kind@ == "impl_item"@,
        wanted.contains(ChunkKind::Function),
        0 <= j < cs[p].children@.len(),
        cs[p].children@[j].kind@ == "declaration_list"@,
        0 <= i < cs[p].children@[j].children@.len(),
        cs[p].children@[j].children@[i].kind@ == "function_item"@,
        chunk_of(cs[p].children@[j].children@[i], source, path, ChunkKind::Function) is Some,
        wanted.contains(ChunkKind::ImplBlock) ==> chunk_of(cs[p], source, path, ChunkKind::ImplBlock) is Some,
    ensures
        chunks_in(cs, source, path, wanted).contains(
            chunk_of(cs[p].children@[j].children@[i], source, path, ChunkKind::Function)->0,
        ),
{
    lemma_impl_methods_are_found(cs[p], j, i, source, path, wanted);
    lemma_chunks_in_contains_node(cs, p, source, path, wanted);
}

} // verus!
