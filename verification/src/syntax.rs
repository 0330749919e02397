use vstd::prelude::*;

use crate::text::str_eq;

verus! {

/// One node of a concrete syntax tree, copied out of the parser: its grammar kind, the
/// field under which its parent holds it, the byte range of source text it spans, and
/// its children in source order.
pub struct SyntaxNode {
    pub kind: String,
    pub field: Option<String>,
    pub start: usize,
    pub end: usize,
    pub children: Vec<SyntaxNode>,
}

/// Every node of the tree spans a well-ordered byte range inside a source of `len` bytes.
pub open spec fn fits(n: SyntaxNode, len: nat) -> bool
    decreases n,
{
    &&& n.start <= n.end <= len
    &&& forall|i: int| 0 <= i < n.children@.len() ==> fits(#[trigger] n.children@[i], len)
}

/// The first of `cs` that its parent holds under the field `name`.
pub open spec fn field_child(cs: Seq<SyntaxNode>, name: Seq<char>) -> Option<SyntaxNode>
    decreases cs.len(),
{
    if cs.len() == 0 {
        None
    } else if cs[0].field matches Some(f) && f@ == name {
        Some(cs[0])
    } else {
        field_child(cs.drop_first(), name)
    }
}

impl SyntaxNode {
    /// Whether every node of the tree spans a range inside a source of `len` bytes.
    pub fn fits_in(&self, len: usize) -> (r: bool)
        ensures
            r == fits(*self, len as nat),
        decreases self,
    {
        if !(self.start <= self.end && self.end <= len) {
            return false;
        }
        let mut i: usize = 0;
        while i < self.children.len()
            invariant
                i <= self.children@.len(),
                forall|j: int| 0 <= j < i ==> fits(#[trigger] self.children@[j], len as nat),
            decreases self.children@.len() - i,
        {
            if !self.children[i].fits_in(len) {
                return false;
            }
            i += 1;
        }
        true
    }

    /// The first child that this node holds under the field `name`.
    pub fn child_by_field_name(&self, name: &str) -> (r: Option<&SyntaxNode>)
        ensures
            match r {
                Some(c) => field_child(self.children@, name@) == Some(*c),
                None => field_child(self.children@, name@) is None,
            },
    {
        let mut i: usize = 0;
        assert(self.children@.skip(0) =~= self.children@);
        while i < self.children.len()
            invariant
                i <= self.children@.len(),
                field_child(self.children@, name@) == field_child(self.children@.skip(i as int), name@),
            decreases self.children@.len() - i,
        {
            let c = &self.children[i];
            assert(self.children@.skip(i as int).drop_first() =~= self.children@.skip(i + 1));
            match &c.field {
                Some(f) => {
                    if str_eq(f.as_str(), name) {
                        return Some(c);
                    }
                },
                None => {},
            }
            i += 1;
        }
        None
    }
}

#[verifier::external_type_specification]
#[verifier::external_body]
pub struct ExParser(tree_sitter::Parser);

/// The syntax tree that tree-sitter's Rust grammar (`tree_sitter_rust::LANGUAGE`) gives
/// for `source`, copied node for node, or `None` where the parser gives no tree.
pub uninterp spec fn rust_syntax_tree(source: Seq<u8>) -> Option<SyntaxNode>;

/// `tree_sitter::Parser::new`: a parser with no language set. Nothing is claimed of it.
pub assume_specification[ tree_sitter::Parser::new ]() -> tree_sitter::Parser;

/// `tree_sitter::Parser::set_language` with the Rust grammar of `tree_sitter_rust`, a
/// `LanguageError` coming back as its text. Claimed: it succeeds. `set_language` fails only
/// for a grammar whose ABI version lies outside the range the library accepts (13 to 15 in
/// tree-sitter 0.27.1) or that has no lexer; the Rust grammar of tree-sitter-rust 0.24.2,
/// the versions this crate is built with, has ABI version 15 and a lexer.
#[verifier::external_body]
pub(crate) fn set_rust_language(parser: &mut tree_sitter::Parser) -> (r: Result<(), String>)
    ensures
        r is Ok,
{
    parser.set_language(&tree_sitter_rust::LANGUAGE.into()).map_err(|e| e.to_string())
}

/// A tree-sitter parser set to the Rust grammar. `RustParser::new` is the only place that
/// makes one, so every value of this type has had `set_rust_language` succeed on it.
pub struct RustParser {
    parser: tree_sitter::Parser,
}

impl RustParser {
    /// A parser for Rust source; setting the grammar always succeeds, so this is `Ok`.
    pub fn new() -> (r: Result<RustParser, String>)
        ensures
            r is Ok,
    {
        let mut parser = tree_sitter::Parser::new();
        match set_rust_language(&mut parser) {
            Ok(()) => Ok(RustParser { parser }),
            Err(msg) => Err(msg),
        }
    }
}

/// `tree_sitter::Parser::parse(source, None)` with a parser set to the Rust grammar; the tree
/// it returns is copied node for node (kind, field name, byte range, children in order)
/// into a `SyntaxNode` by walking it with a `TreeCursor`. Claimed: the result is the named
/// tree of `source`, which depends on `source` alone; and there is a tree, since `parse`
/// gives none only when no language has been set, and a `RustParser` always has one.
#[verifier::external_body]
pub(crate) fn parse_rust(parser: &mut RustParser, source: &[u8]) -> (tree: Option<SyntaxNode>)
    ensures
        tree == rust_syntax_tree(source@),
        tree is Some,
{
    let parsed = parser.parser.parse(source, None)?;
    let mut c = parsed.walk();
    let mut open: Vec<SyntaxNode> = Vec::new();
    loop {
        let n = c.node();
        open.push(SyntaxNode { kind: n.kind().to_string(), field: c.field_name().map(|f| f.to_string()), start: n.start_byte(), end: n.end_byte(), children: Vec::new() });
        if c.goto_first_child() { continue; }
        loop {
            let done = open.pop()?;
            match open.last_mut() { Some(p) => p.children.push(done), None => return Some(done) }
            if c.goto_next_sibling() { break; }
            c.goto_parent();
        }
    }
}

} // verus!
