use vstd::prelude::*;

verus! {

/// The kinds of semantic unit a source file is split into.
#[derive(Debug, Clone, Copy, PartialEq, Eq, Structural)]
pub enum ChunkKind {
    Function,
    ImplBlock,
    Trait,
    Struct,
    Enum,
}

/// The name under which a chunk kind is written (in the corpus, the configuration
/// file and the reports).
pub open spec fn kind_name(k: ChunkKind) -> Seq<char> {
    match k {
        ChunkKind::Function => "function"@,
        ChunkKind::ImplBlock => "impl_block"@,
        ChunkKind::Trait => "trait"@,
        ChunkKind::Struct => "struct"@,
        ChunkKind::Enum => "enum"@,
    }
}

impl ChunkKind {
    /// The kind's name, as in `kind_name`.
    pub fn to_string(&self) -> (s: String)
        ensures
            s@ == kind_name(*self),
    {
        match self {
            ChunkKind::Function => String::from_str("function"),
            ChunkKind::ImplBlock => String::from_str("impl_block"),
            ChunkKind::Trait => String::from_str("trait"),
            ChunkKind::Struct => String::from_str("struct"),
            ChunkKind::Enum => String::from_str("enum"),
        }
    }
}

/// Every chunk kind, in declaration order.
pub open spec fn every_kind() -> Seq<ChunkKind> {
    seq![ChunkKind::Function, ChunkKind::ImplBlock, ChunkKind::Trait, ChunkKind::Struct, ChunkKind::Enum]
}

/// Every chunk kind, in declaration order.
pub fn all_kinds() -> (v: Vec<ChunkKind>)
    ensures
        v@ == every_kind(),
{
    let v = vec![ChunkKind::Function, ChunkKind::ImplBlock, ChunkKind::Trait, ChunkKind::Struct, ChunkKind::Enum];
    assert(v@ =~= every_kind());
    v
}

/// Whether `k` occurs in `kinds`.
pub fn contains_kind(kinds: &Vec<ChunkKind>, k: ChunkKind) -> (r: bool)
    ensures
        r == kinds@.contains(k),
{
    let mut i: usize = 0;
    while i < kinds.len()
        invariant
            i <= kinds@.len(),
            forall|j: int| 0 <= j < i ==> kinds@[j] != k,
        decreases kinds@.len() - i,
    {
        if kinds[i] == k {
            assert(kinds@[i as int] == k);
            return true;
        }
        i += 1;
    }
    false
}

/// A semantic unit extracted from a source file.
#[derive(Debug)]
pub struct Chunk {
    pub name: String,
    pub kind: ChunkKind,
    pub source_path: String,
    pub byte_range: (usize, usize),
    pub snippet: String,
}

/// A chunk with its texts taken as character sequences.
pub struct ChunkView {
    pub name: Seq<char>,
    pub kind: ChunkKind,
    pub source_path: Seq<char>,
    pub byte_range: (usize, usize),
    pub snippet: Seq<char>,
}

impl View for Chunk {
    type V = ChunkView;

    open spec fn view(&self) -> ChunkView {
        ChunkView {
            name: self.name@,
            kind: self.kind,
            source_path: self.source_path@,
            byte_range: self.byte_range,
            snippet: self.snippet@,
        }
    }
}

impl Clone for Chunk {
    fn clone(&self) -> (c: Chunk)
        ensures
            c@ == self@,
    {
        Chunk {
            name: self.name.clone(),
            kind: self.kind,
            source_path: self.source_path.clone(),
            byte_range: (self.byte_range.0, self.byte_range.1),
            snippet: self.snippet.clone(),
        }
    }
}

/// The views of a sequence of chunks.
pub open spec fn chunk_views(s: Seq<Chunk>) -> Seq<ChunkView> {
    s.map_values(|c: Chunk| c@)
}

/// A row stored in the corpus.
#[derive(Debug)]
pub struct CorpusEntry {
    pub id: i64,
    pub name: String,
    pub kind: ChunkKind,
    pub tags: Vec<String>,
    pub source_path: String,
    pub snippet: String,
}

/// A corpus entry with its texts taken as character sequences.
pub struct CorpusEntryView {
    pub id: i64,
    pub name: Seq<char>,
    pub kind: ChunkKind,
    pub tags: Seq<Seq<char>>,
    pub source_path: Seq<char>,
    pub snippet: Seq<char>,
}

impl View for CorpusEntry {
    type V = CorpusEntryView;

    open spec fn view(&self) -> CorpusEntryView {
        CorpusEntryView {
            id: self.id,
            name: self.name@,
            kind: self.kind,
            tags: self.tags.deep_view(),
            source_path: self.source_path@,
            snippet: self.snippet@,
        }
    }
}

impl Clone for CorpusEntry {
    fn clone(&self) -> (c: CorpusEntry)
        ensures
            c@ == self@,
    {
        let tags = self.tags.clone();
        assert(tags.deep_view() =~= self.tags.deep_view());
        CorpusEntry {
            id: self.id,
            name: self.name.clone(),
            kind: self.kind,
            tags,
            source_path: self.source_path.clone(),
            snippet: self.snippet.clone(),
        }
    }
}

/// The errors of the library.
#[derive(Debug)]
pub enum RascalError {
    Config(String),
    Parse { path: String, msg: String },
    Corpus(String),
    Embedder(String),
    NoChunks(String),
}

/// The text that describes an error to the user.
pub open spec fn error_message(e: RascalError) -> Seq<char> {
    match e {
        RascalError::Config(m) => "config error: "@ + m@,
        RascalError::Parse { path, msg } => "parse error in "@ + path@ + ": "@ + msg@,
        RascalError::Corpus(m) => "corpus error: "@ + m@,
        RascalError::Embedder(m) => "embedder error: "@ + m@,
        RascalError::NoChunks(p) => "no chunks found in "@ + p@,
    }
}

impl RascalError {
    /// The error's message, as in `error_message`.
    pub fn to_string(&self) -> (s: String)
        ensures
            s@ == error_message(*self),
    {
        match self {
            RascalError::Config(m) => {
                let mut s = String::from_str("config error: ");
                s.append(m.as_str());
                s
            },
            RascalError::Parse { path, msg } => {
                let mut s = String::from_str("parse error in ");
                s.append(path.as_str());
                s.append(": ");
                s.append(msg.as_str());
                s
            },
            RascalError::Corpus(m) => {
                let mut s = String::from_str("corpus error: ");
                s.append(m.as_str());
                s
            },
            RascalError::Embedder(m) => {
                let mut s = String::from_str("embedder error: ");
                s.append(m.as_str());
                s
            },
            RascalError::NoChunks(p) => {
                let mut s = String::from_str("no chunks found in ");
                s.append(p.as_str());
                s
            },
        }
    }
}

/// Splits a source file into semantic chunks. `path` names the file and `source`
/// holds its bytes.
pub trait Chunker {
    fn chunk(&self, path: &str, source: &[u8]) -> Result<Vec<Chunk>, RascalError>;
}

} // verus!
