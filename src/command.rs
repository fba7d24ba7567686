//! Selection of what to do from the command-line arguments.

use vstd::prelude::*;
use vstd::string::StrSliceExecFns;
use crate::message::{joined, views, create_message, argument_header};

verus! {

/// What went wrong with the command line.
#[derive(Clone, Copy, Debug, PartialEq, Eq)]
pub enum UsageProblem {
    /// `-e` was given without any code after it.
    MissingSnippet,
    /// A single argument looked like an option but is none of the known ones.
    InvalidOption,
}

/// What a command line asks the client to do.
#[derive(Clone, Debug, PartialEq, Eq)]
pub enum Command {
    /// Send standard input.
    SendStdin,
    /// Send the contents of the file at `path`.
    SendFile { path: String },
    /// Send `header`, then the contents of the file at `path`.
    SendFileWithArgs { path: String, header: String },
    /// Send this snippet payload.
    SendSnippet { payload: String },
    Help,
    Start,
    Stop,
    Version,
    Usage(UsageProblem),
}

/// Whether `c` has the Unicode `White_Space` property, the whitespace that
/// `char::is_whitespace` and `str::trim` go by.
pub open spec fn is_white_space(c: char) -> bool {
    let u = c as u32;
    (0x9 <= u && u <= 0xd) || u == 0x20 || u == 0x85 || u == 0xa0 || u == 0x1680 || (0x2000 <= u
        && u <= 0x200a) || u == 0x2028 || u == 0x2029 || u == 0x202f || u == 0x205f || u == 0x3000
}

/// How many whitespace characters `s` starts with.
pub open spec fn leading_white(s: Seq<char>) -> nat
    decreases s.len(),
{
    if s.len() > 0 && is_white_space(s[0]) {
        1 + leading_white(s.drop_first())
    } else {
        0
    }
}

/// How many whitespace characters `s` ends with.
pub open spec fn trailing_white(s: Seq<char>) -> nat
    decreases s.len(),
{
    if s.len() > 0 && is_white_space(s.last()) {
        1 + trailing_white(s.drop_last())
    } else {
        0
    }
}

/// `s` without its leading and trailing whitespace.
pub open spec fn trimmed(s: Seq<char>) -> Seq<char> {
    if leading_white(s) >= s.len() {
        Seq::empty()
    } else {
        s.subrange(leading_white(s) as int, s.len() - trailing_white(s))
    }
}

/// Relies on `str::trim`: the string without leading and trailing
/// whitespace, whitespace being the Unicode `White_Space` property.
#[verifier::external_body]
fn trim_arg(s: &String) -> (r: String)
    ensures
        r@ == trimmed(s@),
{
    s.trim().to_string()
}

/// Whether the first character of `s` is a dash.
fn starts_with_dash(s: &String) -> (r: bool)
    ensures
        r == (s@.len() > 0 && s@[0] == '-'),
{
    let t = s.as_str();
    t.unicode_len() > 0 && t.get_char(0) == '-'
}

fn same_text(t: &String, lit: &str) -> (r: bool)
    ensures
        r == (t@ == lit@),
{
    let l = lit.to_owned();
    *t == l
}

/// The option a single trimmed argument names.
pub open spec fn single_option(t: Seq<char>) -> Command {
    if t == "--help"@ || t == "-h"@ {
        Command::Help
    } else if t == "--start"@ || t == "-t"@ {
        Command::Start
    } else if t == "--stop"@ || t == "-s"@ {
        Command::Stop
    } else if t == "--version"@ || t == "-v"@ {
        Command::Version
    } else if t == "-e"@ {
        Command::Usage(UsageProblem::MissingSnippet)
    } else {
        Command::Usage(UsageProblem::InvalidOption)
    }
}

/// The command a single option argument selects, `t` being the argument
/// without surrounding whitespace.
pub fn option_command(t: &String) -> (c: Command)
    ensures
        c == single_option(t@),
{
    if same_text(t, "--help") || same_text(t, "-h") {
        Command::Help
    } else if same_text(t, "--start") || same_text(t, "-t") {
        Command::Start
    } else if same_text(t, "--stop") || same_text(t, "-s") {
        Command::Stop
    } else if same_text(t, "--version") || same_text(t, "-v") {
        Command::Version
    } else if same_text(t, "-e") {
        Command::Usage(UsageProblem::MissingSnippet)
    } else {
        Command::Usage(UsageProblem::InvalidOption)
    }
}

/// Whether `c` is what the command line `args` (program name excluded)
/// asks for.
pub open spec fn selects(args: Seq<String>, c: Command) -> bool {
    if args.len() == 0 {
        c == Command::SendStdin
    } else if args.len() == 1 && !(args[0]@.len() > 0 && args[0]@[0] == '-') {
        c == (Command::SendFile { path: args[0] })
    } else if args.len() == 1 {
        c == single_option(trimmed(args[0]@))
    } else if trimmed(args[0]@) == "-e"@ {
        match c {
            Command::SendSnippet { payload } => payload@ == joined(views(args)),
            _ => false,
        }
    } else {
        match c {
            Command::SendFileWithArgs { path, header } => {
                &&& path == args[0]
                &&& header@ == "["@ + joined(views(args.drop_first())) + "]\n"@
            },
            _ => false,
        }
    }
}

/// Picks the command from the arguments: none reads standard input; one
/// that is not an option names a file; one option selects a special
/// command; `-e` followed by code sends all arguments as a snippet; a file
/// followed by arguments sends the arguments in brackets, then the file.
pub fn select_command(args: &Vec<String>) -> (c: Command)
    ensures
        selects(args@, c),
{
    if args.len() == 0 {
        return Command::SendStdin;
    }
    let first = &args[0];
    if args.len() == 1 && !starts_with_dash(first) {
        return Command::SendFile { path: first.clone() };
    }
    let t = trim_arg(first);
    if args.len() == 1 {
        option_command(&t)
    } else if same_text(&t, "-e") {
        Command::SendSnippet { payload: create_message(args.as_slice()) }
    } else {
        let rest = args.as_slice().split_at(1).1;
        assert(rest@ =~= args@.drop_first());
        Command::SendFileWithArgs { path: first.clone(), header: argument_header(rest) }
    }
}

} // verus!
