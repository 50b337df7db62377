use vstd::prelude::*;

use crate::args::CliArgs;
use crate::commands::{
    command_text, compile_command, compile_outcome, verification_outcome, verifier_command,
    CommandSpec,
};
use crate::error::VerifierError;
use crate::layout::{artifact_path_of, confirm_artifact, locate};
use crate::toolchain::ToolchainPaths;

verus! {

/// The stages of one verification run, strictly in this order. A failure
/// at any stage ends the run.
#[derive(Clone, Copy, Debug, PartialEq, Eq, Structural)]
pub enum Stage {
    /// Waiting for a validated toolchain.
    Toolchain,
    /// Waiting for the compiler wrapper to exit.
    Compile,
    /// Waiting to learn whether the artifact exists.
    Artifact,
    /// Waiting for the verifier to exit.
    Verify,
    Done,
    Failed,
}

/// One run of the pipeline for a contract source directory and a deployed
/// contract. The caller does the outside work each stage names and reports
/// back; the run decides what comes next.
#[derive(Clone, Debug, PartialEq, Eq)]
pub struct Pipeline {
    pub args: CliArgs,
    pub stage: Stage,
    /// The artifact path, once compilation has succeeded.
    pub artifact: Option<String>,
    /// The verifier command, once the artifact is known to exist.
    pub verifier: Option<CommandSpec>,
}

impl Pipeline {
    pub fn new(args: CliArgs) -> (r: Pipeline)
        ensures
            r.args == args,
            r.stage == Stage::Toolchain,
            r.artifact is None,
            r.verifier is None,
    {
        Pipeline { args, stage: Stage::Toolchain, artifact: None, verifier: None }
    }

    /// Takes the validated toolchain and gives the compile command to run.
    pub fn toolchain_ready(&mut self, tc: &ToolchainPaths) -> (r: CommandSpec)
        requires
            old(self).stage == Stage::Toolchain,
        ensures
            final(self).stage == Stage::Compile,
            final(self).args == old(self).args,
            final(self).artifact == old(self).artifact,
            final(self).verifier == old(self).verifier,
            r.program@ == tc.aztec_nargo@,
            r.args.deep_view() == seq!["compile"@],
            r.cwd matches Some(d) && d@ == old(self).args.source@,
            r.env.deep_view() == seq![
                ("NARGO"@, tc.nargo@),
                ("TRANSPILER"@, tc.transpiler@),
                ("BB"@, tc.bb@),
            ],
    {
        self.stage = Stage::Compile;
        compile_command(tc, self.args.source.as_str())
    }

    /// Takes how the compiler wrapper exited. On success gives the path at
    /// which the artifact must now exist.
    pub fn compiled(&mut self, exit_code: Option<i32>) -> (r: Result<String, VerifierError>)
        requires
            old(self).stage == Stage::Compile,
        ensures
            final(self).args == old(self).args,
            final(self).verifier == old(self).verifier,
            r is Err ==> final(self).artifact == old(self).artifact,
            exit_code != Some(0i32) ==> (r matches Err(VerifierError::CompilationFailed { exit_code: c })
                && c == exit_code),
            exit_code == Some(0i32) && artifact_path_of(old(self).args.source@) is None ==> r matches Err(
                VerifierError::InvalidSourceDir,
            ),
            exit_code == Some(0i32) && artifact_path_of(old(self).args.source@) is Some ==> (r matches Ok(p)
                && artifact_path_of(old(self).args.source@) == Some(p@)),
            r matches Ok(p) ==> final(self).stage == Stage::Artifact && final(self).artifact == Some(p),
            r is Err ==> final(self).stage == Stage::Failed,
    {
        match compile_outcome(exit_code) {
            Err(e) => {
                self.stage = Stage::Failed;
                Err(e)
            },
            Ok(()) => match locate(self.args.source.as_str()) {
                Ok(p) => {
                    self.stage = Stage::Artifact;
                    self.artifact = Some(p.clone());
                    Ok(p)
                },
                Err(e) => {
                    self.stage = Stage::Failed;
                    Err(e)
                },
            },
        }
    }

    /// Takes whether the artifact exists and gives the verifier command.
    pub fn artifact_checked(&mut self, exists: bool) -> (r: Result<CommandSpec, VerifierError>)
        requires
            old(self).stage == Stage::Artifact,
            old(self).artifact is Some,
        ensures
            final(self).args == old(self).args,
            final(self).artifact == old(self).artifact,
            !exists ==> final(self).verifier == old(self).verifier,
            !exists ==> (r matches Err(VerifierError::ArtifactNotFound { expected_path })
                && Some(expected_path) == old(self).artifact && final(self).stage == Stage::Failed),
            exists ==> (r matches Ok(cmd) && cmd.program@ == "node"@ && cmd.args.deep_view() == seq![
                "scripts/verify_class_id.mjs"@,
                "--artifact"@,
                old(self).artifact->0@,
                "--address"@,
                old(self).args.address@,
                "--network"@,
                old(self).args.network@,
            ] && cmd.cwd is None && cmd.env@.len() == 0 && final(self).stage == Stage::Verify),
            exists ==> (final(self).verifier matches Some(v) && r matches Ok(cmd) && v.program@
                == cmd.program@ && v.args.deep_view() == cmd.args.deep_view() && v.cwd is None
                && v.env@.len() == 0),
    {
        let path = match &self.artifact {
            Some(p) => p.clone(),
            None => String::new(),
        };
        match confirm_artifact(path, exists) {
            Err(e) => {
                self.stage = Stage::Failed;
                Err(e)
            },
            Ok(p) => {
                let cmd = verifier_command(
                    p.as_str(),
                    self.args.address.as_str(),
                    self.args.network.as_str(),
                );
                self.stage = Stage::Verify;
                self.verifier = Some(
                    verifier_command(
                        p.as_str(),
                        self.args.address.as_str(),
                        self.args.network.as_str(),
                    ),
                );
                Ok(cmd)
            },
        }
    }

    /// Takes how the verifier exited (`None`: it could not be started).
    pub fn verified(&mut self, exit_code: Option<i32>) -> (r: Result<(), VerifierError>)
        requires
            old(self).stage == Stage::Verify,
            old(self).verifier is Some,
        ensures
            final(self).args == old(self).args,
            final(self).artifact == old(self).artifact,
            final(self).verifier == old(self).verifier,
            exit_code == Some(0i32) ==> r is Ok && final(self).stage == Stage::Done,
            exit_code != Some(0i32) ==> (r matches Err(
                VerifierError::VerificationFailed { command_line: l },
            ) && l@ == command_text(
                old(self).verifier->0.program@,
                old(self).verifier->0.args.deep_view(),
            ) && final(self).stage == Stage::Failed),
    {
        let r = match &self.verifier {
            Some(cmd) => verification_outcome(exit_code, cmd),
            None => Ok(()),
        };
        if r.is_ok() {
            self.stage = Stage::Done;
        } else {
            self.stage = Stage::Failed;
        }
        r
    }
}

} // verus!
