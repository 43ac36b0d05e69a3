//! The failures of a pipeline run.

use vstd::prelude::*;
use vstd::string::*;

verus! {

/// What went wrong.
#[derive(Clone, Copy, Debug, PartialEq, Eq, Structural)]
pub enum ErrorKind {
    /// The manifest file is absent or unreadable.
    ManifestRead,
    /// The manifest does not name a package.
    ManifestParse,
    /// The external command could not be started.
    BuildSpawn,
    /// The external command ran and reported failure.
    BuildFailed,
    /// The compiled binary is not where it was expected.
    ArtifactNotFound,
    /// The install directory could not be created.
    InstallDir,
    /// Copying the binary failed for another reason.
    Copy,
    /// The vendor directory does not exist.
    VendorSourceMissing,
    /// Reading, creating or copying failed while mirroring.
    MirrorIo,
}

/// A failure together with the file or command it arose from.
#[derive(Clone, Debug, PartialEq, Eq)]
pub struct PipelineError {
    pub kind: ErrorKind,
    pub subject: String,
}

impl PipelineError {
    /// Whether this is a failure of kind `kind` on `subject`.
    pub open spec fn is(self, kind: ErrorKind, subject: Seq<char>) -> bool {
        self.kind == kind && self.subject@ == subject
    }

    /// A failure of kind `kind` on `subject`.
    pub fn new(kind: ErrorKind, subject: &str) -> (e: PipelineError)
        ensures
            e.is(kind, subject@),
    {
        PipelineError { kind, subject: String::from_str(subject) }
    }

    /// The fixed text that introduces a failure of kind `kind`.
    pub open spec fn prefix_spec(kind: ErrorKind) -> Seq<char> {
        match kind {
            ErrorKind::ManifestRead => "failed to read manifest: "@,
            ErrorKind::ManifestParse => "failed to parse manifest: "@,
            ErrorKind::BuildSpawn => "failed to start command: "@,
            ErrorKind::BuildFailed => "command failed: "@,
            ErrorKind::ArtifactNotFound => "compiled binary not found: "@,
            ErrorKind::InstallDir => "failed to create directory: "@,
            ErrorKind::Copy => "failed to copy binary: "@,
            ErrorKind::VendorSourceMissing => "vendor directory does not exist: "@,
            ErrorKind::MirrorIo => "failed to mirror: "@,
        }
    }

    /// A line for the user: the kind's text followed by the subject.
    pub fn message(&self) -> (out: String)
        ensures
            out@ == Self::prefix_spec(self.kind) + self.subject@,
    {
        let prefix: &'static str = match self.kind {
            ErrorKind::ManifestRead => "failed to read manifest: ",
            ErrorKind::ManifestParse => "failed to parse manifest: ",
            ErrorKind::BuildSpawn => "failed to start command: ",
            ErrorKind::BuildFailed => "command failed: ",
            ErrorKind::ArtifactNotFound => "compiled binary not found: ",
            ErrorKind::InstallDir => "failed to create directory: ",
            ErrorKind::Copy => "failed to copy binary: ",
            ErrorKind::VendorSourceMissing => "vendor directory does not exist: ",
            ErrorKind::MirrorIo => "failed to mirror: ",
        };
        let mut out = String::from_str(prefix);
        out.append(self.subject.as_str());
        out
    }
}

} // verus!
