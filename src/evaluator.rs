use vstd::prelude::*;
use crate::diagnostic::{Caught, Diagnostic, build_diagnostic, describes};

verus! {

/// The origin under which interactive input is compiled.
pub fn shell_origin() -> (r: String)
    ensures
        r@ == "(shell)"@,
{
    String::from_str("(shell)")
}

/// Which step of an evaluation failed.
#[derive(Clone, Copy, Debug, PartialEq, Eq, Structural)]
pub enum Stage {
    Compile,
    Run,
}

/// A failed evaluation: the step that failed and what it reported.
pub struct Failure {
    pub stage: Stage,
    pub diagnostic: Diagnostic,
}

/// How the engine answered one unit of source text.
pub enum EngineReport {
    /// Compiling failed; the catch scope holds what was thrown.
    CompileFailed(Caught),
    /// The script compiled, and running it threw.
    RunFailed(Caught),
    /// The script ran; its value coerced to a string.
    Completed(String),
}

/// `r` is the outcome of an evaluation on which the engine reported `e`.
pub open spec fn concludes(r: Result<String, Failure>, e: EngineReport) -> bool {
    match e {
        EngineReport::CompileFailed(c) => match r {
            Err(f) => f.stage == Stage::Compile && describes(f.diagnostic, c),
            Ok(_) => false,
        },
        EngineReport::RunFailed(c) => match r {
            Err(f) => f.stage == Stage::Run && describes(f.diagnostic, c),
            Ok(_) => false,
        },
        EngineReport::Completed(v) => match r {
            Ok(s) => s@ == v@,
            Err(_) => false,
        },
    }
}

/// The outcome of an evaluation: the display string of a value that was
/// produced, or a diagnostic tagged with the step that failed.
pub fn conclude(report: EngineReport) -> (r: Result<String, Failure>)
    ensures
        concludes(r, report),
{
    match report {
        EngineReport::CompileFailed(c) => Err(Failure { stage: Stage::Compile, diagnostic: build_diagnostic(c) }),
        EngineReport::RunFailed(c) => Err(Failure { stage: Stage::Run, diagnostic: build_diagnostic(c) }),
        EngineReport::Completed(v) => Ok(v),
    }
}

/// When the engine compiles and runs a unit and hands back its value's string
/// coercion, the evaluation succeeds with exactly that string; the same report
/// always gives the same outcome.
pub proof fn completed_run_yields_its_value(r1: Result<String, Failure>, r2: Result<String, Failure>, v: String)
    requires
        concludes(r1, EngineReport::Completed(v)),
        concludes(r2, EngineReport::Completed(v)),
    ensures
        r1 is Ok,
        r1->Ok_0@ == v@,
        r1->Ok_0@ == r2->Ok_0@,
{
}

} // verus!
