use vstd::prelude::*;

verus! {

/// Every way a stage of the pipeline can fail. Each variant carries what an
/// operator needs to act on the failure.
#[derive(Clone, Debug, PartialEq, Eq)]
pub enum VerifierError {
    /// The host architecture / operating system pair has no prebuilt toolchain.
    UnsupportedPlatform,
    /// The toolchain archive could not be fetched.
    DownloadFailed,
    /// The fetched archive could not be unpacked.
    ExtractFailed,
    /// The cache directory could not be created or cleaned up.
    CacheWriteFailed,
    /// A required toolchain executable is absent; holds its full path.
    IncompleteToolchain { missing_file: String },
    /// The compiler wrapper exited unsuccessfully; `None` when it was killed
    /// without an exit code.
    CompilationFailed { exit_code: Option<i32> },
    /// Compilation did not produce the artifact at the expected path.
    ArtifactNotFound { expected_path: String },
    /// The external verifier failed; holds the command line to rerun by hand.
    VerificationFailed { command_line: String },
    /// No release offers a toolchain archive for this platform.
    NoPrebuiltToolchains,
    /// The contract source directory has no final path component.
    InvalidSourceDir,
    /// The artifact is not JSON or holds no string at `contract_class.id`.
    MalformedArtifact,
}

} // verus!
