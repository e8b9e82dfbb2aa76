//! Process lifecycle and command dispatch controller for a serverless-platform
//! command-line tool: classifying an invocation as a self-install or a normal
//! run, sequencing startup facilities, routing each command to its one
//! handler, and folding the results into a single process outcome.

use vstd::prelude::*;

pub mod command;
pub mod controller;
pub mod detect;
pub mod dispatch;

verus! {

/// The terminal success/failure result of one whole invocation; it alone
/// determines the process exit code.
#[derive(Clone, Debug, PartialEq)]
pub enum Outcome {
    Success,
    Failure { message: String },
}

impl Outcome {
    /// Whether this outcome reports success.
    pub fn is_success(&self) -> (r: bool)
        ensures
            r == self is Success,
    {
        match self {
            Outcome::Success => true,
            Outcome::Failure { .. } => false,
        }
    }
}

/// The exit code a process outcome maps to: zero exactly on success, one on
/// any failure.
pub open spec fn spec_exit_code(outcome: Outcome) -> i32 {
    if outcome is Success {
        0
    } else {
        1
    }
}

/// Maps a process outcome to the exit code the process must end with:
/// zero exactly on success, nonzero on any failure.
pub fn exit_code(outcome: &Outcome) -> (code: i32)
    ensures
        code == spec_exit_code(*outcome),
        outcome is Success <==> code == 0,
{
    match outcome {
        Outcome::Success => 0,
        Outcome::Failure { .. } => 1,
    }
}

} // verus!
