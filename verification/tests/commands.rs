use black_anvil::build_project;
use black_anvil::command::{run_result, vendor_command, RunOutcome};
use black_anvil::error::{ErrorKind, PipelineError};
use black_anvil::path::Profile;

#[test]
fn release_build_passes_the_optimisation_flag() {
    let inv = build_project("proj", Profile::Release);
    assert_eq!(inv.program, "cargo");
    assert_eq!(inv.args, vec!["build".to_string(), "--release".to_string()]);
    assert_eq!(inv.working_dir, "proj");
    assert_eq!(inv.label, "cargo build");
}

#[test]
fn debug_build_passes_no_flag() {
    let inv = build_project("some/where", Profile::Debug);
    assert_eq!(inv.program, "cargo");
    assert_eq!(inv.args, vec!["build".to_string()]);
    assert_eq!(inv.working_dir, "some/where");
}

#[test]
fn vendor_command_takes_no_flags() {
    let inv = vendor_command("proj");
    assert_eq!(inv.program, "cargo");
    assert_eq!(inv.args, vec!["vendor".to_string()]);
    assert_eq!(inv.working_dir, "proj");
    assert_eq!(inv.label, "cargo vendor");
}

#[test]
fn zero_exit_is_success() {
    let inv = build_project("proj", Profile::Release);
    assert_eq!(run_result(&inv, RunOutcome::Exited { success: true }), Ok(()));
}

#[test]
fn non_zero_exit_is_build_failed() {
    let inv = build_project("proj", Profile::Release);
    let err = run_result(&inv, RunOutcome::Exited { success: false }).unwrap_err();
    assert_eq!(err, PipelineError::new(ErrorKind::BuildFailed, "cargo build"));
}

#[test]
fn process_that_did_not_start_is_spawn_error() {
    let inv = build_project("proj", Profile::Debug);
    let err = run_result(&inv, RunOutcome::NotStarted).unwrap_err();
    assert_eq!(err.kind, ErrorKind::BuildSpawn);
    assert_eq!(err.subject, "cargo build");
}

#[test]
fn messages_name_the_subject() {
    let cases = [
        (ErrorKind::ManifestRead, "failed to read manifest: x"),
        (ErrorKind::ManifestParse, "failed to parse manifest: x"),
        (ErrorKind::BuildSpawn, "failed to start command: x"),
        (ErrorKind::BuildFailed, "command failed: x"),
        (ErrorKind::ArtifactNotFound, "compiled binary not found: x"),
        (ErrorKind::InstallDir, "failed to create directory: x"),
        (ErrorKind::Copy, "failed to copy binary: x"),
        (ErrorKind::VendorSourceMissing, "vendor directory does not exist: x"),
        (ErrorKind::MirrorIo, "failed to mirror: x"),
    ];
    for (kind, expected) in cases {
        assert_eq!(PipelineError::new(kind, "x").message(), expected);
    }
}
