use vstd::prelude::*;

use crate::config::kind_named;
use crate::domain::{kind_name, Chunk, ChunkKind, ChunkView, CorpusEntry, CorpusEntryView, RascalError};
use crate::text::str_eq;

verus! {

/// The kind that a stored kind name gives back: the kind it names, and `Enum` for any
/// other text.
pub open spec fn stored_kind(s: Seq<char>) -> ChunkKind {
    match kind_named(s) {
        Some(k) => k,
        None => ChunkKind::Enum,
    }
}

/// The kind stored as `s`, as in `stored_kind`.
pub fn parse_kind(s: &str) -> (k: ChunkKind)
    ensures
        k == stored_kind(s@),
{
    if str_eq(s, "function") {
        ChunkKind::Function
    } else if str_eq(s, "impl_block") {
        ChunkKind::ImplBlock
    } else if str_eq(s, "trait") {
        ChunkKind::Trait
    } else if str_eq(s, "struct") {
        ChunkKind::Struct
    } else {
        ChunkKind::Enum
    }
}

/// The JSON text that `serde_json` writes for a list of strings.
pub uninterp spec fn json_of_strings(items: Seq<Seq<char>>) -> Seq<char>;

/// The list of strings that `serde_json` reads from a JSON text, or `None` where the text
/// is not a JSON array of strings.
pub uninterp spec fn strings_of_json(text: Seq<char>) -> Option<Seq<Seq<char>>>;

/// `serde_json::to_string` on a slice of strings, an error coming back as its text.
/// Claimed: it succeeds (serialization fails only where a `Serialize` impl fails or a map has
/// keys that are not strings, and neither can happen for strings); what it writes depends
/// on the strings alone, and is named `json_of_strings`; and `serde_json::from_str` reads
/// that JSON array of escaped strings back as the same strings.
#[verifier::external_body]
fn strings_to_json(items: &[String]) -> (r: Result<String, String>)
    ensures
        r is Ok,
        r matches Ok(s) ==> s@ == json_of_strings(items.deep_view()),
        r matches Ok(s) ==> strings_of_json(s@) == Some(items.deep_view()),
{
    serde_json::to_string(items).map_err(|e| e.to_string())
}

/// `serde_json::from_str::<Vec<String>>`. Claimed: the strings it reads, or its failure,
/// depend on the text alone, as named by `strings_of_json`.
#[verifier::external_body]
fn json_to_strings(text: &str) -> (r: Option<Vec<String>>)
    ensures
        match r {
            Some(v) => strings_of_json(text@) == Some(v.deep_view()),
            None => strings_of_json(text@) is None,
        },
{
    serde_json::from_str::<Vec<String>>(text).ok()
}

/// The values of one row of the corpus table, as text.
pub struct CorpusRow {
    pub name: String,
    pub kind: String,
    pub tags: String,
    pub source_path: String,
    pub snippet: String,
}

/// A corpus row with its texts taken as character sequences.
pub struct CorpusRowView {
    pub name: Seq<char>,
    pub kind: Seq<char>,
    pub tags: Seq<char>,
    pub source_path: Seq<char>,
    pub snippet: Seq<char>,
}

impl View for CorpusRow {
    type V = CorpusRowView;

    open spec fn view(&self) -> CorpusRowView {
        CorpusRowView {
            name: self.name@,
            kind: self.kind@,
            tags: self.tags@,
            source_path: self.source_path@,
            snippet: self.snippet@,
        }
    }
}

/// The row that stores a chunk with its tags.
pub open spec fn row_of(chunk: ChunkView, tags: Seq<Seq<char>>) -> CorpusRowView {
    CorpusRowView {
        name: chunk.name,
        kind: kind_name(chunk.kind),
        tags: json_of_strings(tags),
        source_path: chunk.source_path,
        snippet: chunk.snippet,
    }
}

/// The row that stores `chunk` with `tags`, as in `row_of`; the tags are written as JSON
/// by `serde_json`, which does not fail on strings. Read back under any id, the row gives
/// the chunk's name, kind, path and snippet and the tags as written.
pub fn row_for_chunk(chunk: &Chunk, tags: &[String]) -> (r: Result<CorpusRow, RascalError>)
    ensures
        r is Ok,
        match r {
            Ok(row) => row@ == row_of(chunk@, tags.deep_view())
                && forall|id: i64| #[trigger] entry_of_row(id, row@) == (CorpusEntryView {
                    id,
                    name: chunk@.name,
                    kind: chunk@.kind,
                    tags: tags.deep_view(),
                    source_path: chunk@.source_path,
                    snippet: chunk@.snippet,
                }),
            Err(e) => e matches RascalError::Corpus(m) && m@.len() >= 19
                && m@.subrange(0, 19) == "tag serialization: "@,
        },
{
    let tags_json = match strings_to_json(tags) {
        Ok(t) => t,
        Err(msg) => {
            let mut m = String::from_str("tag serialization: ");
            m.append(msg.as_str());
            proof {
                reveal_strlit("tag serialization: ");
                assert(m@.subrange(0, 19) =~= "tag serialization: "@);
            }
            return Err(RascalError::Corpus(m));
        },
    };
    proof {
        lemma_stored_kind_reads_back(chunk.kind);
    }
    Ok(CorpusRow {
        name: chunk.name.clone(),
        kind: chunk.kind.to_string(),
        tags: tags_json,
        source_path: chunk.source_path.clone(),
        snippet: chunk.snippet.clone(),
    })
}

/// The tags read back from a stored JSON text: its strings, or no tags where it is not a
/// JSON array of strings.
pub open spec fn tags_read_back(text: Seq<char>) -> Seq<Seq<char>> {
    match strings_of_json(text) {
        Some(v) => v,
        None => seq![],
    }
}

/// The corpus entry that a stored row with the given `id` reads back as.
pub open spec fn entry_of_row(id: i64, row: CorpusRowView) -> CorpusEntryView {
    CorpusEntryView {
        id,
        name: row.name,
        kind: stored_kind(row.kind),
        tags: tags_read_back(row.tags),
        source_path: row.source_path,
        snippet: row.snippet,
    }
}

/// The tags that a stored JSON text gives once `serde_json` has read it: the strings it read,
/// or no tags where it read none.
pub fn tags_from_parsed(parsed: Option<Vec<String>>) -> (tags: Vec<String>)
    ensures
        tags.deep_view() == match parsed {
            Some(v) => v.deep_view(),
            None => Seq::<Seq<char>>::empty(),
        },
{
    match parsed {
        Some(v) => v,
        None => {
            let v: Vec<String> = Vec::new();
            assert(v.deep_view() =~= Seq::<Seq<char>>::empty());
            v
        },
    }
}

/// The corpus entry that a stored row reads back as, as in `entry_of_row`.
pub fn entry_from_row(id: i64, name: String, kind: &str, tags_json: &str, source_path: String, snippet: String) -> (e: CorpusEntry)
    ensures
        e@ == entry_of_row(id, CorpusRowView { name: name@, kind: kind@, tags: tags_json@, source_path: source_path@, snippet: snippet@ }),
{
    let tags = tags_from_parsed(json_to_strings(tags_json));
    CorpusEntry { id, name, kind: parse_kind(kind), tags, source_path, snippet }
}

/// Law: the stored name of a kind reads back as that kind.
pub proof fn lemma_stored_kind_reads_back(k: ChunkKind)
    ensures
        stored_kind(kind_name(k)) == k,
{
    crate::config::lemma_kind_name_parses_back(k);
}

/// Law: a chunk stored with tags reads back as an entry with the chunk's name, kind, path and
/// snippet, and with the tags that `serde_json` reads from the JSON it wrote for them.
pub proof fn lemma_stored_chunk_reads_back(id: i64, chunk: ChunkView, tags: Seq<Seq<char>>)
    ensures
        entry_of_row(id, row_of(chunk, tags)) == (CorpusEntryView {
            id,
            name: chunk.name,
            kind: chunk.kind,
            tags: tags_read_back(json_of_strings(tags)),
            source_path: chunk.source_path,
            snippet: chunk.snippet,
        }),
{
    lemma_stored_kind_reads_back(chunk.kind);
}

} // verus!
