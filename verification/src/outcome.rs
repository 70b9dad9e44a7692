//! Classification of a child's raw termination status.

use vstd::prelude::*;

verus! {

/// How one attempt of the supervised child ended: the child either returned
/// an exit code or was killed by a signal — never both.
#[derive(Clone, Copy, PartialEq, Eq, Structural, Debug)]
pub enum Outcome {
    Exited(i32),
    Killed(i32),
}

impl Outcome {
    /// A signal-death records an actual signal number: positive and small
    /// enough for the shell-style encoding `128 + signal` to stay in one byte.
    pub open spec fn wf(self) -> bool {
        match self {
            Outcome::Exited(_) => true,
            Outcome::Killed(sig) => 1 <= sig <= 127,
        }
    }

    /// The shell-style exit code of an outcome: the child's own code for a
    /// normal exit, `128 + signal` for a signal-death.
    pub open spec fn encoded_code_spec(self) -> i32 {
        match self {
            Outcome::Exited(code) => code,
            Outcome::Killed(sig) => (128 + sig as int) as i32,
        }
    }

    /// Encode the outcome as the exit code the supervisor itself reports.
    pub fn encoded_code(&self) -> (code: i32)
        requires
            self.wf(),
        ensures
            code == self.encoded_code_spec(),
    {
        match self {
            Outcome::Exited(code) => *code,
            Outcome::Killed(sig) => 128 + *sig,
        }
    }
}

/// Classify a terminated child's raw status, given as the platform's exit
/// code (if the child exited on its own) or terminating signal number (if it
/// was killed). A status carrying neither is unclassifiable — the embedding
/// program treats that as a fatal wait failure.
pub fn classify_status(code: Option<i32>, signal: Option<i32>) -> (outcome: Option<Outcome>)
    requires
        code is None && signal is Some ==> 1 <= signal->0 <= 127,
    ensures
        code is Some ==> outcome == Some(Outcome::Exited(code->0)),
        code is None && signal is Some ==> outcome == Some(Outcome::Killed(signal->0)),
        code is None && signal is None ==> outcome is None,
        outcome is Some ==> outcome->0.wf(),
{
    match code {
        Some(c) => Some(Outcome::Exited(c)),
        None => match signal {
            Some(sig) => Some(Outcome::Killed(sig)),
            None => None,
        },
    }
}

} // verus!
