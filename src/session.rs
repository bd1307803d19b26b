//! The decisions of an interactive session, one input line at a time.
use vstd::prelude::*;
use crate::text::{trim, chars_of, trim_bounds};
use crate::command::{Command, CommandSpec, CommandError, ErrorSpec, parse_spec, parse_command, instants_render};

verus! {

/// What a session does with one line.
#[derive(Debug)]
pub enum Step {
    /// Nothing but whitespace: prompt again.
    Skip,
    /// A command to send to the hub.
    Send(Command),
    /// A line that does not read as a command: report why and go on.
    Report(CommandError),
    /// The quit sentinel: end the session.
    Finish,
}

/// The step for a line.
pub open spec fn step_spec(line: Seq<char>, r: Step) -> bool {
    if trim(line).len() == 0 {
        r is Skip
    } else {
        match r {
            Step::Skip => false,
            Step::Finish => parse_spec(line) == Ok::<CommandSpec, ErrorSpec>(CommandSpec::Quit),
            Step::Send(c) => parse_spec(line) == Ok::<CommandSpec, ErrorSpec>(c@) && !(c is Quit) && instants_render(c@),
            Step::Report(e) => parse_spec(line) == Err::<CommandSpec, ErrorSpec>(e@),
        }
    }
}

/// Decides what an interactive session does with one line of input.
pub fn interactive_step(line: &str) -> (r: Step)
    ensures
        step_spec(line@, r),
{
    let chars = chars_of(line);
    let n = chars.len();
    let (a, b) = trim_bounds(&chars, 0, n);
    assert(chars@.subrange(0, n as int) =~= line@);
    if a == b {
        return Step::Skip;
    }
    match parse_command(line) {
        Ok(Command::Quit) => Step::Finish,
        Ok(c) => Step::Send(c),
        Err(e) => Step::Report(e),
    }
}

} // verus!
