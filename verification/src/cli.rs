//! The helper's command-line surface: which command an invocation asks for,
//! the usage text shown otherwise, and the process exit codes.

use vstd::prelude::*;
use vstd::string::*;

verus! {

/// What an invocation asks the helper to do: listen for keyboard events,
/// write a text through the accessibility layer, or — for any other
/// invocation — show the usage text.
pub enum Command {
    Listen,
    Write { text: String },
    ShowUsage,
}

/// How a run of the helper ended.
#[derive(Clone, Copy, PartialEq, Eq, Structural, Debug)]
pub enum RunOutcome {
    WriteSucceeded,
    WriteFailed,
    ListenFailed,
    UsageShown,
}

/// The process exit code for each outcome: 0 only for a completed write —
/// listening never ends well by design — 101 for a failed write, and 1 for
/// a listening failure or a usage error.
pub open spec fn exit_code_spec(outcome: RunOutcome) -> int {
    match outcome {
        RunOutcome::WriteSucceeded => 0,
        RunOutcome::WriteFailed => 101,
        RunOutcome::ListenFailed => 1,
        RunOutcome::UsageShown => 1,
    }
}

/// Whether two strings hold the same characters.
fn str_eq(a: &str, b: &str) -> (r: bool)
    ensures
        r == (a@ == b@),
{
    let na = a.unicode_len();
    let nb = b.unicode_len();
    if na != nb {
        return false;
    }
    let mut i: usize = 0;
    while i < na
        invariant
            i <= na,
            na == a@.len(),
            na == b@.len(),
            forall|j: int| 0 <= j < i ==> a@[j] == b@[j],
        decreases na - i,
    {
        if a.get_char(i) != b.get_char(i) {
            return false;
        }
        i += 1;
    }
    proof {
        assert(a@ =~= b@);
    }
    true
}

/// Parse the helper's arguments, the program name included as the first.
///
/// `listen` as the first argument asks for listening mode, whatever follows
/// it; `write` with a text after it asks for a one-shot injection of exactly
/// that text; anything else — no argument, an unknown command, or `write`
/// without a text — asks for the usage text.
pub fn parse_command(args: &Vec<String>) -> (c: Command)
    ensures
        args@.len() > 1 && args@[1]@ == "listen"@ ==> c == Command::Listen,
        !(args@.len() > 1 && args@[1]@ == "listen"@) && args@.len() > 2 && args@[1]@ == "write"@
            ==> (c matches Command::Write { text } && text@ == args@[2]@),
        !(args@.len() > 1 && args@[1]@ == "listen"@) && !(args@.len() > 2 && args@[1]@
            == "write"@) ==> c == Command::ShowUsage,
{
    if args.len() > 1 && str_eq(args[1].as_str(), "listen") {
        Command::Listen
    } else if args.len() > 2 && str_eq(args[1].as_str(), "write") {
        Command::Write { text: args[2].clone() }
    } else {
        Command::ShowUsage
    }
}

/// The usage text, line by line, as shown to the operator when an
/// invocation asks for nothing the helper can do.
pub fn usage_lines(program: &str) -> (lines: Vec<String>)
    ensures
        lines@.len() == 4,
        lines@[0]@ == "Usage: "@ + program@ + " [listen|write <text>]"@,
        lines@[1]@ == "Commands:"@,
        lines@[2]@ == "  listen       - Listen for keyboard events"@,
        lines@[3]@ == "  write <text> - Write text using accessibility API"@,
{
    let mut first = String::from_str("Usage: ");
    first.append(program);
    first.append(" [listen|write <text>]");
    let mut lines: Vec<String> = Vec::new();
    lines.push(first);
    lines.push(String::from_str("Commands:"));
    lines.push(String::from_str("  listen       - Listen for keyboard events"));
    lines.push(String::from_str("  write <text> - Write text using accessibility API"));
    lines
}

/// The process exit code for an outcome.
pub fn exit_code(outcome: RunOutcome) -> (c: i32)
    ensures
        c == exit_code_spec(outcome),
{
    match outcome {
        RunOutcome::WriteSucceeded => 0,
        RunOutcome::WriteFailed => 101,
        RunOutcome::ListenFailed => 1,
        RunOutcome::UsageShown => 1,
    }
}

} // verus!
