use vstd::prelude::*;
use crate::diagnostic::{lines_view, render, rendered};
use crate::evaluator::Failure;

verus! {

/// Where the read-eval-print loop stands.
#[derive(Clone, Copy, Debug, PartialEq, Eq, Structural)]
pub enum Phase {
    Prompting,
    Reading,
    Terminated,
}

/// What one read of a line from the input stream gave.
pub enum ReadResult {
    /// Zero bytes: the input has ended.
    End,
    /// A line of input.
    Line(String),
    /// The read failed, with this message.
    Failed(String),
}

/// What the loop does after a read.
pub enum Directive {
    /// Print a newline and stop.
    Terminate,
    /// Evaluate this text under the shell origin.
    Evaluate(String),
    /// Print this line on the output stream and prompt again.
    Warn(String),
}

/// The prompt printed, and flushed, before each read.
pub fn prompt() -> (r: String)
    ensures
        r@ == "> "@,
{
    String::from_str("> ")
}

/// The phase that follows printing the prompt: the loop then waits for a
/// line; any other phase stays as it is.
pub fn after_prompt(p: Phase) -> (r: Phase)
    ensures
        p == Phase::Prompting ==> r == Phase::Reading,
        p != Phase::Prompting ==> r == p,
{
    match p {
        Phase::Prompting => Phase::Reading,
        other => other,
    }
}

/// `d` is what the loop does after the read `r`.
pub open spec fn directs(d: Directive, r: ReadResult) -> bool {
    match r {
        ReadResult::End => d is Terminate,
        ReadResult::Line(text) => match d {
            Directive::Evaluate(t) => t@ == text@,
            _ => false,
        },
        ReadResult::Failed(m) => match d {
            Directive::Warn(w) => w@ == "error: "@ + m@,
            _ => false,
        },
    }
}

/// The phase that a directive leads to once it is carried out.
pub open spec fn next_phase(d: Directive) -> Phase {
    match d {
        Directive::Terminate => Phase::Terminated,
        _ => Phase::Prompting,
    }
}

/// Decides what follows a read: end of input stops the loop, a line is
/// evaluated, and a failed read is reported as `error: {message}`.
pub fn after_read(r: ReadResult) -> (d: Directive)
    ensures
        directs(d, r),
{
    match r {
        ReadResult::End => Directive::Terminate,
        ReadResult::Line(text) => Directive::Evaluate(text),
        ReadResult::Failed(m) => {
            let mut w = String::from_str("error: ");
            w.append(m.as_str());
            Directive::Warn(w)
        },
    }
}

/// The phase that follows carrying out `d`.
pub fn phase_after(d: &Directive) -> (p: Phase)
    ensures
        p == next_phase(*d),
{
    match d {
        Directive::Terminate => Phase::Terminated,
        _ => Phase::Prompting,
    }
}

/// End of input, wherever it comes, stops the loop at once: nothing is
/// evaluated and nothing is reported.
pub proof fn end_of_input_terminates(d: Directive)
    requires
        directs(d, ReadResult::End),
    ensures
        next_phase(d) == Phase::Terminated,
        !(d is Evaluate),
        !(d is Warn),
{
}

/// A failed read never stops the loop: it is reported and the loop prompts
/// for more input.
pub proof fn read_error_continues(d: Directive, message: String)
    requires
        directs(d, ReadResult::Failed(message)),
    ensures
        next_phase(d) == Phase::Prompting,
        d is Warn,
{
}

/// The lines that go to the output and error streams after an evaluation.
pub struct Emission {
    pub out: Vec<String>,
    pub err: Vec<String>,
}

/// A value's display string goes to the output stream; a failure is rendered
/// to the error stream.
pub fn after_evaluation(r: &Result<String, Failure>) -> (e: Emission)
    ensures
        match r {
            Ok(v) => lines_view(e.out@) == seq![v@] && e.err@.len() == 0,
            Err(f) => e.out@.len() == 0 && lines_view(e.err@) == rendered(f.diagnostic),
        },
{
    match r {
        Ok(v) => {
            let mut out: Vec<String> = Vec::new();
            out.push(v.clone());
            assert(lines_view(out@) =~= seq![v@]);
            Emission { out, err: Vec::new() }
        },
        Err(f) => Emission { out: Vec::new(), err: render(&f.diagnostic) },
    }
}

} // verus!
