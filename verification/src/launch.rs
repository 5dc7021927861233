//! The order of a launch: the pre-run line, if the plan has one, and only
//! after it has succeeded the interpreter.

use crate::error::{Failure, LaunchError};
use crate::plan::{LaunchPlan, Plan};
use vstd::prelude::*;

verus! {

/// What the launcher does next.
#[derive(Debug, PartialEq, Eq)]
pub enum Action {
    /// Run `line` with a shell in the directory `dir`, and wait for it.
    PreRun { dir: String, line: String },
    /// Replace the launcher by the interpreter.
    Replace,
    /// Give up, and report the failure.
    Abort(LaunchError),
}

/// The mathematical value of an [`Action`].
pub enum Move {
    PreRun { dir: Seq<char>, line: Seq<char> },
    Replace,
    Abort(Failure),
}

impl View for Action {
    type V = Move;

    open spec fn view(&self) -> Move {
        match self {
            Action::PreRun { dir, line } => Move::PreRun { dir: dir@, line: line@ },
            Action::Replace => Move::Replace,
            Action::Abort(failure) => Move::Abort(failure@),
        }
    }
}

/// The first move of a launch: the pre-run line in the project root where
/// the plan has one, else the interpreter at once.
pub open spec fn opening(plan: Plan) -> Move {
    match plan.pre_run {
        Some(line) => Move::PreRun { dir: plan.project_root, line },
        None => Move::Replace,
    }
}

/// The move after the pre-run line has ended: the interpreter if the line
/// succeeded, and no launch if it did not.
pub open spec fn after_pre_run(succeeded: bool) -> Move {
    if succeeded {
        Move::Replace
    } else {
        Move::Abort(Failure::PreRunFailed)
    }
}

/// The command that runs a pre-run line: a shell that gives up at the first
/// command that fails, at a variable that is not set, and at a failure
/// inside a pipeline. The program comes first, its arguments behind it.
pub open spec fn shell_command_of(line: Seq<char>) -> Seq<Seq<char>> {
    seq!["bash"@, "-eu"@, "-o"@, "pipefail"@, "-c"@, line]
}

/// What the launcher says of itself where the command line asks the
/// interpreter for its help or version text.
pub open spec fn banner_of(version: Seq<char>) -> Seq<char> {
    "Running under rpy version "@ + version
}

impl LaunchPlan {
    /// The first move of the launch.
    pub fn first_action(&self) -> (action: Action)
        ensures
            action@ == opening(self@),
    {
        match &self.pre_run {
            Some(line) => Action::PreRun { dir: self.project_root.clone(), line: line.clone() },
            None => Action::Replace,
        }
    }

    /// The move after the pre-run line has ended, successfully or not.
    pub fn pre_run_ended(&self, succeeded: bool) -> (action: Action)
        ensures
            action@ == after_pre_run(succeeded),
    {
        if succeeded {
            Action::Replace
        } else {
            Action::Abort(LaunchError::PreRunFailed)
        }
    }
}

/// The command that runs the pre-run line `line`.
pub fn shell_command(line: &str) -> (command: Vec<String>)
    ensures
        command.deep_view() == shell_command_of(line@),
{
    let mut command: Vec<String> = Vec::new();
    command.push("bash".to_owned());
    command.push("-eu".to_owned());
    command.push("-o".to_owned());
    command.push("pipefail".to_owned());
    command.push("-c".to_owned());
    command.push(line.to_owned());
    assert(command.deep_view() =~= shell_command_of(line@));
    command
}

/// The failure to report when the system could not start the interpreter
/// and said `reason`.
pub fn replace_failed(reason: String) -> (failure: LaunchError)
    ensures
        failure@ == Failure::ProcessLaunchError(reason@),
{
    LaunchError::ProcessLaunchError(reason)
}

/// The launcher's banner for its version `version`.
pub fn banner(version: &str) -> (line: String)
    ensures
        line@ == banner_of(version@),
{
    "Running under rpy version ".to_owned().concat(version)
}

} // verus!
