use vstd::prelude::*;

use crate::domain::{kind_name, CorpusEntry};

verus! {

/// The decimal digit character for `d < 10`.
pub open spec fn digit_char(d: nat) -> char {
    (48 + d) as char
}

/// The decimal digits of `n`, most significant first, without leading zeros.
pub open spec fn digits(n: nat) -> Seq<char>
    decreases n,
{
    if n < 10 {
        seq![digit_char(n)]
    } else {
        digits(n / 10).push(digit_char(n % 10))
    }
}

/// The decimal text of an integer, with a leading `-` when it is negative.
pub open spec fn decimal(n: int) -> Seq<char> {
    if n < 0 {
        seq!['-'] + digits((-n) as nat)
    } else {
        digits(n as nat)
    }
}

/// `s` preceded by spaces up to `width` characters.
pub open spec fn pad_left(s: Seq<char>, width: nat) -> Seq<char> {
    if s.len() >= width {
        s
    } else {
        Seq::new((width - s.len()) as nat, |i: int| ' ') + s
    }
}

/// `s` followed by spaces up to `width` characters.
pub open spec fn pad_right(s: Seq<char>, width: nat) -> Seq<char> {
    if s.len() >= width {
        s
    } else {
        s + Seq::new((width - s.len()) as nat, |i: int| ' ')
    }
}

/// The text of one decimal digit.
fn digit_str(d: u64) -> (s: &'static str)
    requires
        d < 10,
    ensures
        s@ == seq![digit_char(d as nat)],
{
    proof {
        reveal_strlit("0");
        reveal_strlit("1");
        reveal_strlit("2");
        reveal_strlit("3");
        reveal_strlit("4");
        reveal_strlit("5");
        reveal_strlit("6");
        reveal_strlit("7");
        reveal_strlit("8");
        reveal_strlit("9");
    }
    let s = if d == 0 {
        "0"
    } else if d == 1 {
        "1"
    } else if d == 2 {
        "2"
    } else if d == 3 {
        "3"
    } else if d == 4 {
        "4"
    } else if d == 5 {
        "5"
    } else if d == 6 {
        "6"
    } else if d == 7 {
        "7"
    } else if d == 8 {
        "8"
    } else {
        "9"
    };
    assert(s@ =~= seq![digit_char(d as nat)]);
    s
}

/// Appends the decimal digits of `n`.
fn push_digits(n: u64, s: &mut String)
    ensures
        final(s)@ == old(s)@ + digits(n as nat),
    decreases n,
{
    if n >= 10 {
        push_digits(n / 10, s);
    }
    s.append(digit_str(n % 10));
    assert(s@ =~= old(s)@ + digits(n as nat));
}

/// Appends `count` spaces.
fn push_spaces(s: &mut String, count: usize)
    ensures
        final(s)@ == old(s)@ + Seq::new(count as nat, |i: int| ' '),
{
    let mut k: usize = 0;
    while k < count
        invariant
            k <= count,
            s@ == old(s)@ + Seq::new(k as nat, |i: int| ' '),
        decreases count - k,
    {
        proof {
            reveal_strlit(" ");
        }
        s.append(" ");
        k += 1;
        assert(s@ =~= old(s)@ + Seq::new(k as nat, |i: int| ' '));
    }
}

/// The decimal text of an `i64`, as in `decimal`.
pub fn i64_decimal(n: i64) -> (s: String)
    ensures
        s@ == decimal(n as int),
{
    let mut s = String::new();
    if n < 0 {
        s.append("-");
        proof {
            reveal_strlit("-");
        }
        let m: u64 = (0i128 - n as i128) as u64;
        push_digits(m, &mut s);
        assert(s@ =~= decimal(n as int));
    } else {
        push_digits(n as u64, &mut s);
        assert(s@ =~= decimal(n as int));
    }
    s
}

/// The decimal text of a `usize`.
pub fn usize_decimal(n: usize) -> (s: String)
    ensures
        s@ == decimal(n as int),
{
    let mut s = String::new();
    push_digits(n as u64, &mut s);
    assert(s@ =~= decimal(n as int));
    s
}

/// The line that lists a corpus entry: its id right-aligned in four columns, its kind
/// left-aligned in twelve, its name, and its source path in parentheses, two spaces apart.
pub open spec fn entry_line_text(e: CorpusEntry) -> Seq<char> {
    pad_left(decimal(e.id as int), 4) + "  "@ + pad_right(kind_name(e.kind), 12) + "  "@ + e.name@ + "  ("@
        + e.source_path@ + ")"@
}

/// The line that lists a corpus entry, as in `entry_line_text`.
pub fn entry_line(e: &CorpusEntry) -> (line: String)
    ensures
        line@ == entry_line_text(*e),
{
    let id = i64_decimal(e.id);
    let id_len = id.as_str().unicode_len();
    let mut line = String::new();
    if id_len < 4 {
        push_spaces(&mut line, 4 - id_len);
    }
    line.append(id.as_str());
    line.append("  ");
    let kind = e.kind.to_string();
    let kind_len = kind.as_str().unicode_len();
    line.append(kind.as_str());
    if kind_len < 12 {
        push_spaces(&mut line, 12 - kind_len);
    }
    line.append("  ");
    line.append(e.name.as_str());
    line.append("  (");
    line.append(e.source_path.as_str());
    line.append(")");
    assert(line@ =~= entry_line_text(*e));
    line
}

/// The message that closes an `index` run.
pub open spec fn index_summary_text(total: usize, files: usize) -> Seq<char> {
    "rascal: indexed "@ + decimal(total as int) + " chunks from "@ + decimal(files as int) + " file(s)"@
}

/// The message that closes an `index` run, as in `index_summary_text`.
pub fn index_summary(total: usize, files: usize) -> (m: String)
    ensures
        m@ == index_summary_text(total, files),
{
    let mut m = String::from_str("rascal: indexed ");
    m.append(usize_decimal(total).as_str());
    m.append(" chunks from ");
    m.append(usize_decimal(files).as_str());
    m.append(" file(s)");
    m
}

/// The message that closes a listing of the corpus.
pub open spec fn entries_summary_text(n: usize) -> Seq<char> {
    "rascal: "@ + decimal(n as int) + " entries"@
}

/// The message that closes a listing of the corpus, as in `entries_summary_text`.
pub fn entries_summary(n: usize) -> (m: String)
    ensures
        m@ == entries_summary_text(n),
{
    let mut m = String::from_str("rascal: ");
    m.append(usize_decimal(n).as_str());
    m.append(" entries");
    m
}

/// The mark shown in the table's pass column.
pub open spec fn pass_mark_text(passes: bool) -> Seq<char> {
    if passes {
        "\u{2713}"@
    } else {
        "\u{2717}"@
    }
}

/// The mark shown in the table's pass column, as in `pass_mark_text`.
pub fn pass_mark(passes: bool) -> (m: String)
    ensures
        m@ == pass_mark_text(passes),
{
    if passes {
        String::from_str("\u{2713}")
    } else {
        String::from_str("\u{2717}")
    }
}

/// The text shown in the table's nearest-match column: the name, or a dash where there is none.
pub open spec fn nearest_cell_text(nearest: Option<Seq<char>>) -> Seq<char> {
    match nearest {
        Some(n) => n,
        None => "\u{2014}"@,
    }
}

/// The text shown in the table's nearest-match column, as in `nearest_cell_text`.
pub fn nearest_cell(nearest: &Option<String>) -> (t: String)
    ensures
        t@ == nearest_cell_text(match nearest {
            Some(n) => Some(n@),
            None => None,
        }),
{
    match nearest {
        Some(n) => n.clone(),
        None => String::from_str("\u{2014}"),
    }
}

} // verus!
