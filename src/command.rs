//! Reading the command line and choosing the command to run.

use vstd::prelude::*;
use vstd::string::StringExecFns;
use crate::listing::S3Ctx;
use crate::text::same_text;

verus! {

/// The command an invocation runs.
pub enum Command {
    /// Print the kept keys, one per line.
    Ls(S3Ctx),
    /// Write the contents of the kept keys' objects, end to end.
    Cat(S3Ctx),
    /// Any other command name: nothing is done.
    Unknown,
}

/// The result of reading the command line.
pub enum Invocation {
    /// Too few arguments: print this line and do nothing else.
    Usage(String),
    /// Run this command.
    Run(Command),
}

/// The usage line for a program invoked as `program`.
pub open spec fn usage_text(program: Seq<char>) -> Seq<char> {
    "Usage: "@ + program + " <command> <bucket_name> <key> <filter>"@
}

impl S3Ctx {
    /// This context enumerates `bucket` from `key` with these filters.
    pub open spec fn describes(
        &self,
        bucket: Seq<char>,
        key: Seq<char>,
        filter: Option<Seq<char>>,
        ng_filter: Option<Seq<char>>,
    ) -> bool {
        &&& self.bucket@ == bucket
        &&& self.key@ == key
        &&& self.filter.deep_view() == filter
        &&& self.ng_filter.deep_view() == ng_filter
    }
}

impl Command {
    /// The command that `s` names, over `ctx`: `ls` lists, `cat`
    /// concatenates, and any other name does nothing.
    pub fn from(ctx: S3Ctx, s: &str) -> (r: Command)
        ensures
            s@ == "ls"@ ==> r == Command::Ls(ctx),
            s@ == "cat"@ ==> r == Command::Cat(ctx),
            s@ != "ls"@ && s@ != "cat"@ ==> r == Command::Unknown,
    {
        proof {
            reveal_strlit("ls");
            reveal_strlit("cat");
            assert("ls"@.len() != "cat"@.len());
        }
        if same_text(s, "ls") {
            Command::Ls(ctx)
        } else if same_text(s, "cat") {
            Command::Cat(ctx)
        } else {
            Command::Unknown
        }
    }
}

/// The usage line for a program invoked as `program`.
pub fn usage(program: &str) -> (r: String)
    ensures
        r@ == usage_text(program@),
{
    let mut line = "Usage: ".to_owned();
    line.append(program);
    line.append(" <command> <bucket_name> <key> <filter>");
    line
}

/// The optional argument at `i`, borrowed.
fn optional_arg(args: &Vec<String>, i: usize) -> (r: Option<&str>)
    ensures
        r.deep_view() == arg_at(args.deep_view(), i as int),
{
    if i < args.len() {
        Some(args[i].as_str())
    } else {
        None
    }
}

/// The optional argument at `i` of `args`, if there is one.
pub open spec fn arg_at(args: Seq<Seq<char>>, i: int) -> Option<Seq<char>> {
    if i < args.len() {
        Some(args[i])
    } else {
        None
    }
}

/// `c` is the command that the arguments `args` (at least four) name.
pub open spec fn names_command(c: Command, args: Seq<Seq<char>>) -> bool {
    match c {
        Command::Ls(ctx) => args[1] == "ls"@ && ctx.describes(
            args[2],
            args[3],
            arg_at(args, 4),
            arg_at(args, 5),
        ),
        Command::Cat(ctx) => args[1] == "cat"@ && ctx.describes(
            args[2],
            args[3],
            arg_at(args, 4),
            arg_at(args, 5),
        ),
        Command::Unknown => args[1] != "ls"@ && args[1] != "cat"@,
    }
}

/// Reads the arguments `<program> <command> <bucket> <start-key>
/// [<include-filter>] [<exclude-filter>]`. With fewer than four, the result
/// is the usage line, naming the program (empty when even that is missing).
pub fn parse_args(args: &Vec<String>) -> (r: Invocation)
    ensures
        args@.len() < 4 ==> (r matches Invocation::Usage(u) && u@ == usage_text(
            match arg_at(args.deep_view(), 0) {
                Some(p) => p,
                None => Seq::empty(),
            },
        )),
        args@.len() >= 4 ==> (r matches Invocation::Run(c) && names_command(
            c,
            args.deep_view(),
        )),
{
    if args.len() < 4 {
        let program = if args.len() > 0 {
            args[0].as_str()
        } else {
            ""
        };
        proof {
            reveal_strlit("");
        }
        return Invocation::Usage(usage(program));
    }
    let ctx = S3Ctx::new(
        args[2].as_str(),
        args[3].as_str(),
        optional_arg(args, 4),
        optional_arg(args, 5),
    );
    Invocation::Run(Command::from(ctx, args[1].as_str()))
}

} // verus!
