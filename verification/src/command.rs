//! The external commands of the pipeline and what their outcome means.

use vstd::prelude::*;
use vstd::string::*;
use crate::error::{ErrorKind, PipelineError};
use crate::path::Profile;

verus! {

/// An external command: what to run, with which arguments, and where.
#[derive(Clone, Debug, PartialEq, Eq)]
pub struct Invocation {
    pub program: String,
    pub args: Vec<String>,
    pub working_dir: String,
    /// How the command is named in a failure.
    pub label: String,
}

/// How an external command ended.
#[derive(Clone, Copy, Debug, PartialEq, Eq, Structural)]
pub enum RunOutcome {
    /// The process could not be started.
    NotStarted,
    /// The process ran to its end; `success` is a zero exit status.
    Exited { success: bool },
}

/// The arguments of the build command: the build action, and for a release
/// build the optimisation flag.
pub open spec fn build_args_spec(profile: Profile) -> Seq<Seq<char>> {
    match profile {
        Profile::Release => seq!["build"@, "--release"@],
        Profile::Debug => seq!["build"@],
    }
}

/// The command that builds the project at `project_path` under `profile`.
/// It runs in the project's directory.
pub fn build_project(project_path: &str, profile: Profile) -> (inv: Invocation)
    ensures
        inv.program@ == "cargo"@,
        inv.args.deep_view() == build_args_spec(profile),
        inv.working_dir@ == project_path@,
        inv.label@ == "cargo build"@,
{
    let mut args: Vec<String> = Vec::new();
    args.push(String::from_str("build"));
    match profile {
        Profile::Release => {
            args.push(String::from_str("--release"));
        },
        Profile::Debug => {},
    }
    assert(args.deep_view() =~= build_args_spec(profile));
    Invocation {
        program: String::from_str("cargo"),
        args,
        working_dir: String::from_str(project_path),
        label: String::from_str("cargo build"),
    }
}

/// The command that resolves the project's dependencies into its vendor
/// directory. It takes no flags and runs in the project's directory.
pub fn vendor_command(project_path: &str) -> (inv: Invocation)
    ensures
        inv.program@ == "cargo"@,
        inv.args.deep_view() == seq!["vendor"@],
        inv.working_dir@ == project_path@,
        inv.label@ == "cargo vendor"@,
{
    let mut args: Vec<String> = Vec::new();
    args.push(String::from_str("vendor"));
    assert(args.deep_view() =~= seq!["vendor"@]);
    Invocation {
        program: String::from_str("cargo"),
        args,
        working_dir: String::from_str(project_path),
        label: String::from_str("cargo vendor"),
    }
}

/// What the outcome of a command means for the run: success only on a zero
/// exit status; a process that never started and one that reported failure
/// are told apart.
pub fn run_result(inv: &Invocation, outcome: RunOutcome) -> (r: Result<(), PipelineError>)
    ensures
        outcome == (RunOutcome::Exited { success: true }) <==> r is Ok,
        outcome == RunOutcome::NotStarted ==> r is Err && r->Err_0.is(
            ErrorKind::BuildSpawn,
            inv.label@,
        ),
        outcome == (RunOutcome::Exited { success: false }) ==> r is Err && r->Err_0.is(
            ErrorKind::BuildFailed,
            inv.label@,
        ),
{
    match outcome {
        RunOutcome::NotStarted => Err(PipelineError::new(ErrorKind::BuildSpawn, inv.label.as_str())),
        RunOutcome::Exited { success } => {
            if success {
                Ok(())
            } else {
                Err(PipelineError::new(ErrorKind::BuildFailed, inv.label.as_str()))
            }
        },
    }
}

} // verus!
