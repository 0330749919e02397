use vstd::prelude::*;

use crate::domain::CorpusEntry;

verus! {

/// The first of `entries` whose id is `id`.
pub open spec fn entry_with_id(entries: Seq<CorpusEntry>, id: i64) -> Option<CorpusEntry>
    decreases entries.len(),
{
    if entries.len() == 0 {
        None
    } else if entries[0].id == id {
        Some(entries[0])
    } else {
        entry_with_id(entries.drop_first(), id)
    }
}

/// The name reported as nearest match for the corpus entry of id `best`: the name of the
/// first entry with that id, and none where there is no best entry or no entry has its id.
pub open spec fn nearest_name(best: Option<i64>, entries: Seq<CorpusEntry>) -> Option<Seq<char>> {
    match best {
        Some(id) => match entry_with_id(entries, id) {
            Some(e) => Some(e.name@),
            None => None,
        },
        None => None,
    }
}

/// Law: when some entry has the id `id`, the nearest name for `id` is the name of the first
/// entry that has it.
pub proof fn lemma_nearest_name_is_first_with_id(entries: Seq<CorpusEntry>, id: i64, i: int)
    requires
        0 <= i < entries.len(),
        entries[i].id == id,
        forall|k: int| 0 <= k < i ==> entries[k].id != id,
    ensures
        nearest_name(Some(id), entries) == Some(entries[i].name@),
    decreases i,
{
    if i > 0 {
        assert(entries[0].id != id);
        let rest = entries.drop_first();
        assert forall|k: int| 0 <= k < i - 1 implies rest[k].id != id by {
            assert(rest[k] == entries[k + 1]);
        }
        lemma_nearest_name_is_first_with_id(rest, id, i - 1);
    }
}

/// Law: when no entry has the id `id`, or there is no best id, there is no nearest name.
pub proof fn lemma_no_nearest_name_without_entry(entries: Seq<CorpusEntry>, id: i64)
    requires
        forall|k: int| 0 <= k < entries.len() ==> entries[k].id != id,
    ensures
        nearest_name(Some(id), entries) is None,
        nearest_name(None, entries) is None,
    decreases entries.len(),
{
    if entries.len() > 0 {
        let rest = entries.drop_first();
        assert forall|k: int| 0 <= k < rest.len() implies rest[k].id != id by {
            assert(rest[k] == entries[k + 1]);
        }
        lemma_no_nearest_name_without_entry(rest, id);
    }
}

/// The name of the nearest corpus entry, as in `nearest_name`.
pub fn nearest_match(best: Option<i64>, entries: &Vec<CorpusEntry>) -> (r: Option<String>)
    ensures
        match r {
            Some(n) => nearest_name(best, entries@) == Some(n@),
            None => nearest_name(best, entries@) is None,
        },
{
    let id = match best {
        Some(id) => id,
        None => return None,
    };
    let mut i: usize = 0;
    assert(entries@.skip(0) =~= entries@);
    while i < entries.len()
        invariant
            best == Some(id),
            i <= entries@.len(),
            entry_with_id(entries@, id) == entry_with_id(entries@.skip(i as int), id),
        decreases entries@.len() - i,
    {
        assert(entries@.skip(i as int).drop_first() =~= entries@.skip(i + 1));
        assert(entries@.skip(i as int)[0] == entries@[i as int]);
        let e = &entries[i];
        if e.id == id {
            let n = e.name.clone();
            assert(entry_with_id(entries@.skip(i as int), id) == Some(entries@[i as int]));
            return Some(n);
        }
        i += 1;
    }
    None
}

/// What a check does once its file is chunked: with no chunks it is done, passes and
/// gives a notice; otherwise it scores the chunks.
pub enum CheckPlan {
    Done { notice: String, passed: bool },
    Score,
}

/// The notice given when a checked file has no chunks.
pub open spec fn no_chunks_notice(path: Seq<char>) -> Seq<char> {
    "rascal: no chunks found in "@ + path
}

/// What a check of the file `path` with `chunk_count` chunks does next: with no chunks it is
/// done and passes, with the notice `no_chunks_notice`; otherwise it scores them.
pub fn plan_check(path: &str, chunk_count: usize) -> (p: CheckPlan)
    ensures
        chunk_count == 0 <==> p is Done,
        p matches CheckPlan::Done { notice, passed } ==> passed && notice@ == no_chunks_notice(path@),
{
    if chunk_count == 0 {
        let mut notice = String::from_str("rascal: no chunks found in ");
        notice.append(path);
        CheckPlan::Done { notice, passed: true }
    } else {
        CheckPlan::Score
    }
}

/// Whether every chunk of a check passes; a check with no chunks passes.
pub fn all_pass(passes: &[bool]) -> (r: bool)
    ensures
        r == forall|i: int| 0 <= i < passes@.len() ==> passes@[i],
{
    let mut i: usize = 0;
    while i < passes.len()
        invariant
            i <= passes@.len(),
            forall|j: int| 0 <= j < i ==> passes@[j],
        decreases passes@.len() - i,
    {
        if !passes[i] {
            return false;
        }
        i += 1;
    }
    true
}

} // verus!
