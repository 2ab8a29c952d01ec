use vstd::prelude::*;

use crate::error::PulseError;
use crate::text::{format_i64, signed_decimal, split_tokens, tokens, views};

verus! {

/// A command line split into the program to start and its arguments.
#[derive(Debug)]
pub struct CommandLine {
    pub program: String,
    pub args: Vec<String>,
}

/// Splits a command line on whitespace: the first token names the program,
/// the others are its arguments. A line without tokens is an error.
pub fn parse_command(line: &str) -> (r: Result<CommandLine, PulseError>)
    ensures
        tokens(line@).len() == 0 <==> r is Err,
        r matches Err(e) ==> (e matches PulseError::CommandExecution(m) && m@ == "Empty command"@),
        r matches Ok(c) ==> tokens(line@) == seq![c.program@] + views(c.args@),
{
    let mut parts = split_tokens(line);
    if parts.len() == 0 {
        return Err(PulseError::CommandExecution(String::from_str("Empty command")));
    }
    let ghost all = parts@;
    let program = parts.remove(0);
    assert(views(all) =~= seq![program@] + views(parts@));
    Ok(CommandLine { program, args: parts })
}

/// The line that separates standard output from standard error.
pub open spec fn stderr_separator() -> Seq<char> {
    "\n\n--- stderr ---\n"@
}

/// The marker that reports a non-zero exit code.
pub open spec fn exit_marker(code: int) -> Seq<char> {
    "\n\n[Exit code: "@ + signed_decimal(code) + "]"@
}

/// The text of an execution: standard output, then standard error (after a
/// separator line when both are present), then, unless the process exited
/// with code 0, a marker with its exit code (-1 when it has none, as when a
/// signal ended it).
pub open spec fn execution_text(stdout: Seq<char>, stderr: Seq<char>, code: Option<i32>) -> Seq<
    char,
> {
    let streams = if stderr.len() == 0 {
        stdout
    } else if stdout.len() == 0 {
        stderr
    } else {
        stdout + stderr_separator() + stderr
    };
    match code {
        Some(c) => if c == 0 {
            streams
        } else {
            streams + exit_marker(c as int)
        },
        None => streams + exit_marker(-1),
    }
}

/// Puts together what a finished command printed and how it exited.
pub fn combine_output(stdout: &str, stderr: &str, code: Option<i32>) -> (r: String)
    ensures
        r@ == execution_text(stdout@, stderr@, code),
{
    let mut result = String::from_str(stdout);
    if !stderr.is_empty() {
        if !stdout.is_empty() {
            result.append("\n\n--- stderr ---\n");
        }
        result.append(stderr);
    }
    let shown: Option<i64> = match code {
        Some(c) => if c == 0 {
            None
        } else {
            Some(c as i64)
        },
        None => Some(-1),
    };
    if let Some(c) = shown {
        let digits = format_i64(c);
        result.append("\n\n[Exit code: ");
        result.append(digits.as_str());
        result.append("]");
    }
    result
}

/// A command that succeeds with non-empty output and nothing on standard
/// error yields exactly its output.
pub proof fn lemma_clean_success_is_stdout(stdout: Seq<char>, stderr: Seq<char>)
    requires
        stdout.len() > 0,
        stderr.len() == 0,
    ensures
        execution_text(stdout, stderr, Some(0i32)) == stdout,
{
}

/// A command that exits with a non-zero code yields a text that ends with
/// the marker of that exact code.
pub proof fn lemma_failure_ends_with_code(stdout: Seq<char>, stderr: Seq<char>, code: i32)
    requires
        code != 0,
    ensures
        ({
            let t = execution_text(stdout, stderr, Some(code));
            let m = exit_marker(code as int);
            t.len() >= m.len() && t.subrange(t.len() - m.len(), t.len() as int) == m
        }),
{
    let t = execution_text(stdout, stderr, Some(code));
    let m = exit_marker(code as int);
    assert(t.subrange(t.len() - m.len(), t.len() as int) =~= m);
}

} // verus!
