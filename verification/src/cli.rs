use vstd::prelude::*;

use crate::text::str_eq;

verus! {

/// Where `index` takes its files from.
#[derive(Debug)]
pub enum IndexSource {
    File(String),
    Dir(String),
}

/// A command given on the command line.
#[derive(Debug)]
pub enum Command {
    Check { path: String, json: bool },
    Index { source: IndexSource },
    CorpusList,
    CorpusClear,
}

/// An index source with its path taken as a character sequence.
pub enum IndexSourceView {
    File(Seq<char>),
    Dir(Seq<char>),
}

/// A command with its paths taken as character sequences.
pub enum CommandView {
    Check { path: Seq<char>, json: bool },
    Index { source: IndexSourceView },
    CorpusList,
    CorpusClear,
}

impl View for Command {
    type V = CommandView;

    open spec fn view(&self) -> CommandView {
        match self {
            Command::Check { path, json } => CommandView::Check { path: path@, json: *json },
            Command::Index { source } => CommandView::Index {
                source: match source {
                    IndexSource::File(p) => IndexSourceView::File(p@),
                    IndexSource::Dir(d) => IndexSourceView::Dir(d@),
                },
            },
            Command::CorpusList => CommandView::CorpusList,
            Command::CorpusClear => CommandView::CorpusClear,
        }
    }
}

/// The command that the arguments (after the program's name) give, if any:
/// `check <file>`, `check <file> --json`, `index <file>`, `index --from <dir>`,
/// `corpus list` and `corpus clear`, tried in that order.
pub open spec fn command_of(args: Seq<Seq<char>>) -> Option<CommandView> {
    if args.len() == 2 && args[0] == "check"@ {
        Some(CommandView::Check { path: args[1], json: false })
    } else if args.len() == 3 && args[0] == "check"@ && args[2] == "--json"@ {
        Some(CommandView::Check { path: args[1], json: true })
    } else if args.len() == 2 && args[0] == "index"@ {
        Some(CommandView::Index { source: IndexSourceView::File(args[1]) })
    } else if args.len() == 3 && args[0] == "index"@ && args[1] == "--from"@ {
        Some(CommandView::Index { source: IndexSourceView::Dir(args[2]) })
    } else if args.len() == 2 && args[0] == "corpus"@ && args[1] == "list"@ {
        Some(CommandView::CorpusList)
    } else if args.len() == 2 && args[0] == "corpus"@ && args[1] == "clear"@ {
        Some(CommandView::CorpusClear)
    } else {
        None
    }
}

/// The usage text shown for arguments that give no command.
pub open spec fn usage_text() -> Seq<char> {
    "usage:\n  rascal check <file> [--json]\n  rascal index <file>\n  rascal index --from <dir>\n  rascal corpus list\n  rascal corpus clear"@
}

/// The usage text, as in `usage_text`.
pub fn usage() -> (u: String)
    ensures
        u@ == usage_text(),
{
    String::from_str(
        "usage:\n  rascal check <file> [--json]\n  rascal index <file>\n  rascal index --from <dir>\n  rascal corpus list\n  rascal corpus clear",
    )
}

/// The command that the arguments give, as in `command_of`, or the usage text.
pub fn parse_args(args: &Vec<String>) -> (r: Result<Command, String>)
    ensures
        match r {
            Ok(c) => command_of(args.deep_view()) == Some(c@),
            Err(u) => command_of(args.deep_view()) is None && u@ == usage_text(),
        },
{
    let ghost a = args.deep_view();
    let n = args.len();
    if n == 2 {
        assert(a[0] == args@[0]@ && a[1] == args@[1]@);
        let first = args[0].as_str();
        let second = args[1].as_str();
        if str_eq(first, "check") {
            return Ok(Command::Check { path: args[1].clone(), json: false });
        }
        if str_eq(first, "index") {
            return Ok(Command::Index { source: IndexSource::File(args[1].clone()) });
        }
        if str_eq(first, "corpus") && str_eq(second, "list") {
            return Ok(Command::CorpusList);
        }
        if str_eq(first, "corpus") && str_eq(second, "clear") {
            return Ok(Command::CorpusClear);
        }
    } else if n == 3 {
        assert(a[0] == args@[0]@ && a[1] == args@[1]@ && a[2] == args@[2]@);
        let first = args[0].as_str();
        if str_eq(first, "check") && str_eq(args[2].as_str(), "--json") {
            return Ok(Command::Check { path: args[1].clone(), json: true });
        }
        if str_eq(first, "index") && str_eq(args[1].as_str(), "--from") {
            return Ok(Command::Index { source: IndexSource::Dir(args[2].clone()) });
        }
    }
    Err(usage())
}

} // verus!
