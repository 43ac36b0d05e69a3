//! Staging the compiled binary into the install directory.

use vstd::prelude::*;
use vstd::string::*;
use crate::error::{ErrorKind, PipelineError};
use crate::manifest::{manifest_path_spec, package_name_spec, read_package_name};
use crate::path::{artifact_path, artifact_path_spec, binary_name, binary_name_spec, join, join_spec,
    Platform, Profile};

verus! {

/// What staging consists of: ensure `install_dir` exists, then copy `source`
/// to `dest`, replacing what is there.
#[derive(Clone, Debug, PartialEq, Eq)]
pub struct InstallPlan {
    pub source: String,
    pub install_dir: String,
    pub dest: String,
}

/// How copying the binary ended.
#[derive(Clone, Copy, Debug, PartialEq, Eq, Structural)]
pub enum CopyOutcome {
    Copied,
    /// The source file does not exist.
    SourceMissing,
    /// Any other failure.
    Failed,
}

impl InstallPlan {
    /// Whether this plan stages package `package` of the given project.
    pub open spec fn stages(
        self,
        project_path: Seq<char>,
        profile: Profile,
        install_dir: Seq<char>,
        package: Seq<char>,
        platform: Platform,
    ) -> bool {
        &&& self.source@ == artifact_path_spec(project_path, profile, package, platform)
        &&& self.install_dir@ == install_dir
        &&& self.dest@ == join_spec(install_dir, binary_name_spec(package, platform), platform)
    }
}

/// Plans the staging of package `package`: from the build's output
/// directory into `install_dir`, under the same binary name.
pub fn plan_install(
    project_path: &str,
    profile: Profile,
    install_dir: &str,
    package: &str,
    platform: Platform,
) -> (plan: InstallPlan)
    ensures
        plan.stages(project_path@, profile, install_dir@, package@, platform),
{
    let name = binary_name(package, platform);
    InstallPlan {
        source: artifact_path(project_path, profile, package, platform),
        install_dir: String::from_str(install_dir),
        dest: join(install_dir, name.as_str(), platform),
    }
}

/// Resolves the binary of the project and plans its staging. `manifest` is
/// the text of the project's manifest, or `None` where it could not be read.
///
/// Without a manifest the result is `ManifestRead`; with one that names no
/// package, `ManifestParse`; both name the manifest's path. Otherwise the
/// plan stages the named package.
pub fn copy_binary(
    project_path: &str,
    profile: Profile,
    install_dir: &str,
    manifest: Option<&str>,
    platform: Platform,
) -> (r: Result<InstallPlan, PipelineError>)
    ensures
        match manifest {
            None => r is Err && r->Err_0.is(
                ErrorKind::ManifestRead,
                manifest_path_spec(project_path@, platform),
            ),
            Some(text) => match package_name_spec(text@) {
                None => r is Err && r->Err_0.is(
                    ErrorKind::ManifestParse,
                    manifest_path_spec(project_path@, platform),
                ),
                Some(package) => r is Ok && r->Ok_0.stages(
                    project_path@,
                    profile,
                    install_dir@,
                    package,
                    platform,
                ),
            },
        },
{
    match read_package_name(project_path, manifest, platform) {
        Err(e) => Err(e),
        Ok(package) => Ok(
            plan_install(project_path, profile, install_dir, package.as_str(), platform),
        ),
    }
}

/// Two plans that stage the same package of the same project, as two runs on
/// an unchanged project make them, name the same source and the same
/// destination: a second run overwrites the binary with itself.
pub proof fn lemma_same_inputs_same_plan(
    first: InstallPlan,
    second: InstallPlan,
    project_path: Seq<char>,
    profile: Profile,
    install_dir: Seq<char>,
    package: Seq<char>,
    platform: Platform,
)
    requires
        first.stages(project_path, profile, install_dir, package, platform),
        second.stages(project_path, profile, install_dir, package, platform),
    ensures
        first.source@ == second.source@,
        first.install_dir@ == second.install_dir@,
        first.dest@ == second.dest@,
{
}

/// What the attempt to create the install directory means: nothing is copied
/// unless the directory is there.
pub fn dir_result(plan: &InstallPlan, created: bool) -> (r: Result<(), PipelineError>)
    ensures
        created <==> r is Ok,
        !created ==> r->Err_0.is(ErrorKind::InstallDir, plan.install_dir@),
{
    if created {
        Ok(())
    } else {
        Err(PipelineError::new(ErrorKind::InstallDir, plan.install_dir.as_str()))
    }
}

/// What the copy's outcome means: the destination path on success, and a
/// failure that names the source otherwise.
pub fn copy_result(plan: &InstallPlan, outcome: CopyOutcome) -> (r: Result<String, PipelineError>)
    ensures
        outcome == CopyOutcome::Copied <==> r is Ok,
        outcome == CopyOutcome::Copied ==> r->Ok_0@ == plan.dest@,
        outcome == CopyOutcome::SourceMissing ==> r->Err_0.is(
            ErrorKind::ArtifactNotFound,
            plan.source@,
        ),
        outcome == CopyOutcome::Failed ==> r->Err_0.is(ErrorKind::Copy, plan.source@),
{
    match outcome {
        CopyOutcome::Copied => Ok(plan.dest.clone()),
        CopyOutcome::SourceMissing => Err(
            PipelineError::new(ErrorKind::ArtifactNotFound, plan.source.as_str()),
        ),
        CopyOutcome::Failed => Err(PipelineError::new(ErrorKind::Copy, plan.source.as_str())),
    }
}

} // verus!
