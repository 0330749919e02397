use vstd::prelude::*;

use crate::domain::{kind_name, ChunkKind};
use crate::text::str_eq;

verus! {

/// The chunk kind that a configuration file names with `s`, if any.
pub open spec fn kind_named(s: Seq<char>) -> Option<ChunkKind> {
    if s == "function"@ {
        Some(ChunkKind::Function)
    } else if s == "impl_block"@ {
        Some(ChunkKind::ImplBlock)
    } else if s == "trait"@ {
        Some(ChunkKind::Trait)
    } else if s == "struct"@ {
        Some(ChunkKind::Struct)
    } else if s == "enum"@ {
        Some(ChunkKind::Enum)
    } else {
        None
    }
}

/// The chunk kind named `s`, as in `kind_named`.
pub fn parse_kind(s: &str) -> (r: Option<ChunkKind>)
    ensures
        r == kind_named(s@),
{
    if str_eq(s, "function") {
        Some(ChunkKind::Function)
    } else if str_eq(s, "impl_block") {
        Some(ChunkKind::ImplBlock)
    } else if str_eq(s, "trait") {
        Some(ChunkKind::Trait)
    } else if str_eq(s, "struct") {
        Some(ChunkKind::Struct)
    } else if str_eq(s, "enum") {
        Some(ChunkKind::Enum)
    } else {
        None
    }
}

/// The kind names checked when the configuration file gives none.
pub open spec fn default_kind_names() -> Seq<Seq<char>> {
    seq!["function"@, "impl_block"@, "trait"@]
}

/// The kind names checked when the configuration file gives none.
pub fn default_kinds() -> (v: Vec<String>)
    ensures
        v.deep_view() == default_kind_names(),
{
    let v = vec![String::from_str("function"), String::from_str("impl_block"), String::from_str("trait")];
    assert(v.deep_view() =~= default_kind_names());
    v
}

/// The kinds checked when there is no configuration file.
pub open spec fn default_check_kinds() -> Seq<ChunkKind> {
    seq![ChunkKind::Function, ChunkKind::ImplBlock, ChunkKind::Trait]
}

/// The kinds checked when there is no configuration file.
pub fn default_check_kinds_vec() -> (v: Vec<ChunkKind>)
    ensures
        v@ == default_check_kinds(),
{
    let v = vec![ChunkKind::Function, ChunkKind::ImplBlock, ChunkKind::Trait];
    assert(v@ =~= default_check_kinds());
    v
}

/// The kinds that a list of names gives: each name that names a kind gives it, in order;
/// the other names are left out.
pub open spec fn kinds_of_names(names: Seq<Seq<char>>) -> Seq<ChunkKind>
    decreases names.len(),
{
    if names.len() == 0 {
        seq![]
    } else {
        let rest = kinds_of_names(names.drop_last());
        match kind_named(names.last()) {
            Some(k) => rest.push(k),
            None => rest,
        }
    }
}

/// The kinds that the names `names` of a configuration file give, as in `kinds_of_names`.
pub fn check_kinds_from(names: &Vec<String>) -> (r: Vec<ChunkKind>)
    ensures
        r@ == kinds_of_names(names.deep_view()),
{
    let mut out: Vec<ChunkKind> = Vec::new();
    let mut i: usize = 0;
    assert(names.deep_view().take(0) =~= Seq::<Seq<char>>::empty());
    while i < names.len()
        invariant
            i <= names@.len(),
            out@ == kinds_of_names(names.deep_view().take(i as int)),
        decreases names@.len() - i,
    {
        let ghost dv = names.deep_view();
        assert(dv.take(i + 1).drop_last() =~= dv.take(i as int));
        assert(dv.take(i + 1).last() == names@[i as int]@);
        match parse_kind(names[i].as_str()) {
            Some(k) => out.push(k),
            None => {},
        }
        i += 1;
    }
    assert(names.deep_view().take(names@.len() as int) =~= names.deep_view());
    out
}

/// Law: the kinds of two lists of names, one after the other, are the kinds of the first
/// list followed by the kinds of the second.
pub proof fn lemma_kinds_of_names_concat(a: Seq<Seq<char>>, b: Seq<Seq<char>>)
    ensures
        kinds_of_names(a + b) == kinds_of_names(a) + kinds_of_names(b),
    decreases b.len(),
{
    if b.len() == 0 {
        assert(a + b =~= a);
        assert(kinds_of_names(a) + kinds_of_names(b) =~= kinds_of_names(a));
    } else {
        assert((a + b).drop_last() =~= a + b.drop_last());
        assert((a + b).last() == b.last());
        lemma_kinds_of_names_concat(a, b.drop_last());
        match kind_named(b.last()) {
            Some(k) => {
                assert(kinds_of_names(a) + kinds_of_names(b.drop_last()).push(k)
                    =~= (kinds_of_names(a) + kinds_of_names(b.drop_last())).push(k));
            },
            None => {},
        }
    }
}

/// Law: when every name names a kind, the kinds are one per name, in the names' order.
pub proof fn lemma_known_names_give_their_kinds(names: Seq<Seq<char>>)
    requires
        forall|i: int| 0 <= i < names.len() ==> #[trigger] kind_named(names[i]) is Some,
    ensures
        kinds_of_names(names).len() == names.len(),
        forall|i: int| 0 <= i < names.len() ==> #[trigger] kinds_of_names(names)[i] == kind_named(names[i])->0,
    decreases names.len(),
{
    if names.len() > 0 {
        let init = names.drop_last();
        assert forall|i: int| 0 <= i < init.len() implies #[trigger] kind_named(init[i]) is Some by {
            assert(init[i] == names[i]);
        }
        lemma_known_names_give_their_kinds(init);
        assert(kind_named(names[names.len() - 1]) is Some);
        assert forall|i: int| 0 <= i < names.len() implies #[trigger] kinds_of_names(names)[i] == kind_named(names[i])->0 by {
            if i < names.len() - 1 {
                assert(init[i] == names[i]);
            }
        }
    }
}

/// Law: a name that names no kind adds no kind.
pub proof fn lemma_unknown_name_adds_nothing(names: Seq<Seq<char>>, name: Seq<char>)
    requires
        kind_named(name) is None,
    ensures
        kinds_of_names(names.push(name)) == kinds_of_names(names),
{
    assert(names.push(name).drop_last() =~= names);
}

/// The five kind names differ from each other.
proof fn lemma_kind_names_differ()
    ensures
        "function"@ != "impl_block"@,
        "function"@ != "trait"@,
        "function"@ != "struct"@,
        "function"@ != "enum"@,
        "impl_block"@ != "trait"@,
        "impl_block"@ != "struct"@,
        "impl_block"@ != "enum"@,
        "trait"@ != "struct"@,
        "trait"@ != "enum"@,
        "struct"@ != "enum"@,
{
    reveal_strlit("function");
    reveal_strlit("impl_block");
    reveal_strlit("trait");
    reveal_strlit("struct");
    reveal_strlit("enum");
    assert("function"@[0] != "impl_block"@[0]);
    assert("function"@[0] != "trait"@[0]);
    assert("function"@[0] != "struct"@[0]);
    assert("function"@[0] != "enum"@[0]);
    assert("impl_block"@[0] != "trait"@[0]);
    assert("impl_block"@[0] != "struct"@[0]);
    assert("impl_block"@[0] != "enum"@[0]);
    assert("trait"@[0] != "struct"@[0]);
    assert("trait"@[0] != "enum"@[0]);
    assert("struct"@[0] != "enum"@[0]);
}

/// Law: a kind's name parses back to the kind.
pub proof fn lemma_kind_name_parses_back(k: ChunkKind)
    ensures
        kind_named(kind_name(k)) == Some(k),
{
    lemma_kind_names_differ();
}

/// Law: the kind names that an empty configuration falls back to give the same kinds as
/// having no configuration file at all.
pub proof fn lemma_default_names_give_default_kinds()
    ensures
        kinds_of_names(default_kind_names()) == default_check_kinds(),
{
    lemma_kind_names_differ();
    let n = default_kind_names();
    assert(n.drop_last().drop_last().drop_last() =~= Seq::<Seq<char>>::empty());
    assert(n.drop_last().drop_last() =~= seq!["function"@]);
    assert(n.drop_last() =~= seq!["function"@, "impl_block"@]);
    assert(kinds_of_names(n.drop_last().drop_last().drop_last()) == Seq::<ChunkKind>::empty());
    assert(n.drop_last().drop_last().last() == "function"@);
    assert(kinds_of_names(n.drop_last().drop_last()) =~= seq![ChunkKind::Function]);
    assert(kinds_of_names(n.drop_last()) =~= seq![ChunkKind::Function, ChunkKind::ImplBlock]);
    assert(kinds_of_names(n) =~= default_check_kinds());
}

} // verus!
