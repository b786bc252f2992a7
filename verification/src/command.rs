//! The command that a wrapper hands to the operating system, and what the
//! wrapper makes of the way the command ended.

use vstd::prelude::*;

verus! {

/// The exit code of a wrapper whose command succeeded.
pub const SUCCESS: i32 = 0;

/// The exit code of a wrapper whose command could not be started, or ended
/// without an exit code of its own.
pub const FAILURE: i32 = 1;

/// A process to spawn: the program and its arguments, in order. The child
/// inherits the three standard streams of the wrapper.
#[derive(Clone, PartialEq, Eq, Debug)]
pub struct CommandLine {
    /// Name of the program, looked up as the operating system does
    pub program: String,
    /// The arguments, without the program's name
    pub args: Vec<String>,
}

/// What became of the one child process that a wrapper spawns.
#[derive(Copy, Clone, PartialEq, Eq, Debug, Structural)]
pub enum ChildOutcome {
    /// The child ran and exited with this code
    Exited(i32),
    /// The child ended without an exit code, for instance by a signal
    Terminated,
    /// The child could not be created
    SpawnFailed,
}

/// The exit code that belongs to an outcome: the child's own code where it
/// has one, [`FAILURE`] where it has none.
pub open spec fn exit_code_of(outcome: ChildOutcome) -> i32 {
    match outcome {
        ChildOutcome::Exited(code) => code,
        ChildOutcome::Terminated => FAILURE,
        ChildOutcome::SpawnFailed => FAILURE,
    }
}

/// The code with which the wrapper exits. A child's exit code is passed on
/// as it is, so the wrapper succeeds exactly when the child exited with
/// [`SUCCESS`]; nothing is tried a second time.
pub fn exit_code(outcome: ChildOutcome) -> (code: i32)
    ensures
        code == exit_code_of(outcome),
        code == SUCCESS <==> outcome == ChildOutcome::Exited(SUCCESS),
{
    match outcome {
        ChildOutcome::Exited(code) => code,
        ChildOutcome::Terminated => FAILURE,
        ChildOutcome::SpawnFailed => FAILURE,
    }
}

/// How a chain of steps joined by `&&` went.
#[derive(Copy, Clone, PartialEq, Eq, Debug, Structural)]
pub struct ChainRun {
    /// The exit code of the whole chain
    pub exit_code: i32,
    /// How many steps ran, the failing one included
    pub steps_run: usize,
}

/// Step `k` is the first one that fails, where step `i` exits with
/// `codes[i]`.
pub open spec fn first_failure(codes: Seq<i32>, k: int) -> bool {
    &&& 0 <= k < codes.len()
    &&& codes[k] != SUCCESS
    &&& forall|i: int| 0 <= i < k ==> codes[i] == SUCCESS
}

/// Every step succeeds.
pub open spec fn all_succeed(codes: Seq<i32>) -> bool {
    forall|i: int| 0 <= i < codes.len() ==> codes[i] == SUCCESS
}

/// Plays a chain of steps joined by `&&` through, where step `i`, if it
/// runs, exits with `codes[i]`. The steps run in order until one fails: the
/// chain then ends with that step's code and the steps after it never run.
/// A chain without a failing step runs to its end and succeeds.
pub fn run_chain(codes: &[i32]) -> (run: ChainRun)
    ensures
        forall|k: int|
            first_failure(codes@, k) ==> run.exit_code == codes[k] && run.steps_run == k + 1,
        all_succeed(codes@) ==> run.exit_code == SUCCESS && run.steps_run == codes.len(),
{
    let mut i: usize = 0;
    while i < codes.len()
        invariant
            i <= codes.len(),
            forall|j: int| 0 <= j < i ==> codes[j] == SUCCESS,
        decreases codes.len() - i,
    {
        if codes[i] != SUCCESS {
            return ChainRun { exit_code: codes[i], steps_run: i + 1 };
        }
        i += 1;
    }
    ChainRun { exit_code: SUCCESS, steps_run: i }
}

} // verus!
