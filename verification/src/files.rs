use vstd::prelude::*;

use crate::text::{lemma_concat_contains, str_eq};

verus! {

/// One entry of a directory as it was read: its path, its file name (empty where the name is
/// not UTF-8), its extension (none where it has none or it is not UTF-8), whether it is a
/// directory, and, for a directory that was read, its entries in the order they were listed.
pub struct FsEntry {
    pub path: String,
    pub name: String,
    pub extension: Option<String>,
    pub is_dir: bool,
    pub entries: Vec<FsEntry>,
}

/// The directories that the search for source files does not enter.
pub open spec fn skipped_dir(name: Seq<char>) -> bool {
    name == "target"@ || name == ".git"@ || name == "node_modules"@
}

/// Whether the search for source files enters a directory of this name.
pub fn descends_into(name: &str) -> (r: bool)
    ensures
        r == !skipped_dir(name@),
        r == !(name@ == "target"@ || name@ == ".git"@ || name@ == "node_modules"@),
{
    !(str_eq(name, "target") || str_eq(name, ".git") || str_eq(name, "node_modules"))
}

/// Whether an entry is a Rust source file: a file with extension `rs`.
pub open spec fn is_rs_file(e: FsEntry) -> bool {
    &&& !e.is_dir
    &&& (e.extension matches Some(x) && x@ == "rs"@)
}

/// The paths of the Rust source files among `entries` and, depth first, in the directories
/// among them that are not skipped, in listing order.
pub open spec fn rs_files_in(entries: Seq<FsEntry>) -> Seq<Seq<char>>
    decreases entries,
{
    if entries.len() == 0 {
        seq![]
    } else {
        rs_files_in(entries.drop_last()) + rs_files_of(entries.last())
    }
}

/// The paths of the Rust source files that one entry gives, as in `rs_files_in`.
pub open spec fn rs_files_of(e: FsEntry) -> Seq<Seq<char>>
    decreases e,
{
    if e.is_dir {
        if skipped_dir(e.name@) {
            seq![]
        } else {
            rs_files_in(e.entries@)
        }
    } else if is_rs_file(e) {
        seq![e.path@]
    } else {
        seq![]
    }
}

/// Law: the only directory names that the search skips are `target`, `.git` and `node_modules`.
pub proof fn lemma_only_build_dirs_are_skipped(name: Seq<char>)
    ensures
        skipped_dir(name) <==> (name == "target"@ || name == ".git"@ || name == "node_modules"@),
{
}

/// Law: a Rust source file among the entries (not a directory, extension `rs`) is found.
pub proof fn lemma_rs_file_is_found(entries: Seq<FsEntry>, i: int)
    requires
        0 <= i < entries.len(),
        !entries[i].is_dir,
        entries[i].extension matches Some(x) && x@ == "rs"@,
    ensures
        rs_files_in(entries).contains(entries[i].path@),
    decreases entries.len(),
{
    let rest = rs_files_in(entries.drop_last());
    let mine = rs_files_of(entries.last());
    lemma_concat_contains(rest, mine);
    if i == entries.len() - 1 {
        assert(mine[0] == entries[i].path@);
    } else {
        lemma_rs_file_is_found(entries.drop_last(), i);
        assert(entries.drop_last()[i] == entries[i]);
    }
}

/// Law: every Rust source file found in a directory among the entries is found in the entries,
/// unless the directory is named `target`, `.git` or `node_modules`.
pub proof fn lemma_searched_dir_files_are_found(entries: Seq<FsEntry>, i: int)
    requires
        0 <= i < entries.len(),
        entries[i].is_dir,
        !(entries[i].name@ == "target"@ || entries[i].name@ == ".git"@ || entries[i].name@ == "node_modules"@),
    ensures
        forall|x: Seq<char>| rs_files_in(entries[i].entries@).contains(x)
            ==> #[trigger] rs_files_in(entries).contains(x),
    decreases entries.len(),
{
    let rest = rs_files_in(entries.drop_last());
    let mine = rs_files_of(entries.last());
    lemma_concat_contains(rest, mine);
    if i < entries.len() - 1 {
        lemma_searched_dir_files_are_found(entries.drop_last(), i);
        assert(entries.drop_last()[i] == entries[i]);
    }
}

/// Appends the paths of the Rust source files found in the directory `dir`.
pub fn collect_rs_recursive(dir: &FsEntry, out: &mut Vec<String>)
    ensures
        final(out).deep_view() == old(out).deep_view() + rs_files_in(dir.entries@),
    decreases dir,
{
    let entries = &dir.entries;
    let mut i: usize = 0;
    assert(entries@.take(0) =~= Seq::<FsEntry>::empty());
    assert(out.deep_view() + rs_files_in(entries@.take(0)) =~= out.deep_view());
    while i < entries.len()
        invariant
            i <= entries@.len(),
            entries@ == dir.entries@,
            out.deep_view() == old(out).deep_view() + rs_files_in(entries@.take(i as int)),
        decreases entries@.len() - i,
    {
        let e = &entries[i];
        let ghost before = out.deep_view();
        assert(entries@.take(i + 1).drop_last() =~= entries@.take(i as int));
        assert(entries@.take(i + 1).last() == entries@[i as int]);
        if e.is_dir {
            if descends_into(e.name.as_str()) {
                collect_rs_recursive(e, out);
            } else {
                assert(out.deep_view() =~= before + Seq::<Seq<char>>::empty());
            }
        } else {
            let is_rs = match &e.extension {
                Some(x) => str_eq(x.as_str(), "rs"),
                None => false,
            };
            if is_rs {
                out.push(e.path.clone());
                assert(out.deep_view() =~= before + seq![e.path@]);
            } else {
                assert(out.deep_view() =~= before + Seq::<Seq<char>>::empty());
            }
        }
        assert(out.deep_view() =~= before + rs_files_of(entries@[i as int]));
        i += 1;
        assert(out.deep_view() =~= old(out).deep_view() + rs_files_in(entries@.take(i as int)));
    }
    assert(entries@.take(entries@.len() as int) =~= entries@);
}

/// The paths of the Rust source files in the directory `dir`, as in `rs_files_in`.
pub fn collect_rs_files(dir: &FsEntry) -> (files: Vec<String>)
    ensures
        files.deep_view() == rs_files_in(dir.entries@),
{
    let mut out: Vec<String> = Vec::new();
    assert(out.deep_view() =~= Seq::<Seq<char>>::empty());
    collect_rs_recursive(dir, &mut out);
    assert(Seq::<Seq<char>>::empty() + rs_files_in(dir.entries@) =~= rs_files_in(dir.entries@));
    out
}

} // verus!
