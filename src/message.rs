//! Payloads sent to the daemon: joined arguments and the fixed directives.

use vstd::prelude::*;
use vstd::string::StringExecFns;

verus! {

/// The character views of a list of arguments.
pub open spec fn views(args: Seq<String>) -> Seq<Seq<char>> {
    args.map_values(|a: String| a@)
}

/// The parts, separated by single spaces.
pub open spec fn joined(parts: Seq<Seq<char>>) -> Seq<char>
    decreases parts.len(),
{
    if parts.len() == 0 {
        Seq::empty()
    } else if parts.len() == 1 {
        parts[0]
    } else {
        joined(parts.drop_last()) + seq![' '] + parts.last()
    }
}

/// The arguments joined by single spaces.
pub fn join_args(args: &[String]) -> (r: String)
    ensures
        r@ == joined(views(args@)),
{
    let mut r = String::new();
    let mut i: usize = 0;
    while i < args.len()
        invariant
            i <= args@.len(),
            r@ == joined(views(args@.subrange(0, i as int))),
        decreases args@.len() - i,
    {
        let ghost done = views(args@.subrange(0, i as int));
        if i > 0 {
            r.append(" ");
        }
        r.append(args[i].as_str());
        let ghost now = views(args@.subrange(0, i + 1));
        assert(now.drop_last() =~= done);
        assert(now.last() == args@[i as int]@);
        proof {
            if i == 0 {
                assert(r@ =~= now[0]);
            } else {
                reveal_strlit(" ");
                assert(joined(now) == joined(done) + seq![' '] + now.last());
                assert(r@ =~= joined(now));
            }
        }
        i = i + 1;
    }
    assert(args@.subrange(0, args@.len() as int) =~= args@);
    r
}

/// The payload of a snippet run: every argument, joined by spaces.
pub fn create_message(args: &[String]) -> (r: String)
    ensures
        r@ == joined(views(args@)),
{
    join_args(args)
}

/// `prefix`, then the arguments joined by spaces, then `suffix`.
pub fn create_wrapped_message(prefix: &str, args: &[String], suffix: &str) -> (r: String)
    ensures
        r@ == prefix@ + joined(views(args@)) + suffix@,
{
    let mut r = prefix.to_owned();
    let body = join_args(args);
    r.append(body.as_str());
    r.append(suffix);
    r
}

/// The line put in front of a file's contents to pass it arguments:
/// `[` + the arguments joined by spaces + `]` and a newline.
pub fn argument_header(args: &[String]) -> (r: String)
    ensures
        r@ == "["@ + joined(views(args@)) + "]\n"@,
{
    create_wrapped_message("[", args, "]\n")
}

/// The directive that asks the daemon to shut down.
pub fn stop_directive() -> (r: String)
    ensures
        r@ == "--stop"@,
{
    "--stop".to_owned()
}

/// The directive that asks the daemon for its version.
pub fn version_directive() -> (r: String)
    ensures
        r@ == "--version"@,
{
    "--version".to_owned()
}

/// The no-op snippet sent only to get the daemon started.
pub fn warm_up_directive() -> (r: String)
    ensures
        r@ == "-e null"@,
{
    "-e null".to_owned()
}

} // verus!
