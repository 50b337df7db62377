use aztec_contract_verifier::args::CliArgs;
use aztec_contract_verifier::cache::Acquisition;
use aztec_contract_verifier::error::VerifierError;
use aztec_contract_verifier::pipeline::{Pipeline, Stage};
use aztec_contract_verifier::platform::PlatformTag;

fn counter_args() -> CliArgs {
    CliArgs {
        source: "./contracts/counter".to_string(),
        address: "0xABC".to_string(),
        network: "testnet".to_string(),
    }
}

#[test]
fn pipeline_runs_all_stages_in_order() {
    let mut acq = Acquisition::new("/h", "v1", PlatformTag::Amd64Linux);
    acq.advance(true);
    let tc = acq.finish(&vec![true; 4]).unwrap();

    let mut run = Pipeline::new(counter_args());
    assert_eq!(run.stage, Stage::Toolchain);
    let compile = run.toolchain_ready(&tc);
    assert_eq!(compile.program, "/h/.aztec-verifier/prebuilt/v1/amd64-linux/aztec-nargo");
    assert_eq!(compile.cwd, Some("./contracts/counter".to_string()));
    assert_eq!(run.stage, Stage::Compile);

    let artifact = run.compiled(Some(0)).unwrap();
    assert_eq!(artifact, "./contracts/counter/target/counter_contract-Counter.json");
    assert_eq!(run.stage, Stage::Artifact);

    let verify = run.artifact_checked(true).unwrap();
    assert_eq!(
        verify.args,
        vec![
            "scripts/verify_class_id.mjs",
            "--artifact",
            "./contracts/counter/target/counter_contract-Counter.json",
            "--address",
            "0xABC",
            "--network",
            "testnet",
        ]
    );
    assert_eq!(run.stage, Stage::Verify);
    assert_eq!(run.verified(Some(0)), Ok(()));
    assert_eq!(run.stage, Stage::Done);
}

#[test]
fn failed_compile_stops_the_pipeline() {
    let tc = aztec_contract_verifier::toolchain::validate_toolchain("/t", &vec![true; 4]).unwrap();
    let mut run = Pipeline::new(counter_args());
    run.toolchain_ready(&tc);
    assert_eq!(run.compiled(Some(101)), Err(VerifierError::CompilationFailed { exit_code: Some(101) }));
    assert_eq!(run.stage, Stage::Failed);
    assert_eq!(run.artifact, None);
}

#[test]
fn missing_artifact_stops_before_verification() {
    let tc = aztec_contract_verifier::toolchain::validate_toolchain("/t", &vec![true; 4]).unwrap();
    let mut run = Pipeline::new(counter_args());
    run.toolchain_ready(&tc);
    run.compiled(Some(0)).unwrap();
    assert_eq!(
        run.artifact_checked(false),
        Err(VerifierError::ArtifactNotFound {
            expected_path: "./contracts/counter/target/counter_contract-Counter.json".to_string()
        })
    );
    assert_eq!(run.stage, Stage::Failed);
    assert_eq!(run.verifier, None);
}

#[test]
fn failed_verification_gives_command_to_rerun() {
    let tc = aztec_contract_verifier::toolchain::validate_toolchain("/t", &vec![true; 4]).unwrap();
    let mut run = Pipeline::new(counter_args());
    run.toolchain_ready(&tc);
    run.compiled(Some(0)).unwrap();
    run.artifact_checked(true).unwrap();
    assert_eq!(
        run.verified(Some(1)),
        Err(VerifierError::VerificationFailed {
            command_line: "node scripts/verify_class_id.mjs --artifact ./contracts/counter/target/counter_contract-Counter.json --address 0xABC --network testnet".to_string()
        })
    );
    assert_eq!(run.stage, Stage::Failed);
}
