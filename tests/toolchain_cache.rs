use aztec_contract_verifier::cache::{
    archive_file_name, auth_header, cache_layout, get_compiler_path, AcquireAction, AcquirePhase,
    Acquisition, FailedStep,
};
use aztec_contract_verifier::error::VerifierError;
use aztec_contract_verifier::platform::PlatformTag;
use aztec_contract_verifier::toolchain::{required_paths, validate_toolchain, ToolchainPaths};

fn paths_at(root: &str) -> ToolchainPaths {
    ToolchainPaths {
        root: root.to_string(),
        aztec_nargo: format!("{root}/aztec-nargo"),
        nargo: format!("{root}/nargo"),
        transpiler: format!("{root}/avm-transpiler"),
        bb: format!("{root}/bb"),
    }
}

#[test]
fn layout_of_a_key() {
    let l = cache_layout("/home/u", "v1", PlatformTag::Amd64Linux);
    assert_eq!(l.dir, "/home/u/.aztec-verifier/prebuilt/v1/amd64-linux");
    assert_eq!(l.marker, "/home/u/.aztec-verifier/prebuilt/v1/amd64-linux/aztec-nargo");
    assert_eq!(
        l.archive,
        "/home/u/.aztec-verifier/prebuilt/v1/amd64-linux/toolchain-v1-amd64-linux.tar.gz"
    );
    assert_eq!(
        l.url,
        "https://github.com/hsy822/aztec-contract-verifier/releases/download/v1/toolchain-v1-amd64-linux.tar.gz"
    );
}

#[test]
fn archive_names_and_headers() {
    assert_eq!(archive_file_name("v2", PlatformTag::Arm64Darwin), "toolchain-v2-arm64-darwin.tar.gz");
    assert_eq!(auth_header("abc"), "Authorization: token abc");
    assert_eq!(get_compiler_path("/h", "0.1"), "/h/.aztec-verifier/compilers/0.1/aztec-nargo");
}

#[test]
fn required_paths_in_order() {
    assert_eq!(
        required_paths("/t"),
        vec!["/t/aztec-nargo", "/t/nargo", "/t/avm-transpiler", "/t/bb"]
    );
}

#[test]
fn validator_accepts_complete_directory() {
    assert_eq!(validate_toolchain("/t", &vec![true, true, true, true]), Ok(paths_at("/t")));
}

#[test]
fn validator_names_each_missing_file() {
    let names = ["aztec-nargo", "nargo", "avm-transpiler", "bb"];
    for k in 0..4 {
        let mut present = vec![true; 4];
        present[k] = false;
        assert_eq!(
            validate_toolchain("/t", &present),
            Err(VerifierError::IncompleteToolchain { missing_file: format!("/t/{}", names[k]) })
        );
    }
}

#[test]
fn validator_names_first_of_several_missing() {
    assert_eq!(
        validate_toolchain("/t", &vec![true, false, true, false]),
        Err(VerifierError::IncompleteToolchain { missing_file: "/t/nargo".to_string() })
    );
}

fn run_hit(home: &str) -> (Vec<AcquireAction>, Result<ToolchainPaths, VerifierError>) {
    let mut a = Acquisition::new(home, "v1", PlatformTag::Amd64Linux);
    let mut actions = vec![a.action()];
    a.advance(true);
    actions.push(a.action());
    (actions, a.finish(&vec![true, true, true, true]))
}

#[test]
fn cache_hit_skips_download_and_is_repeatable() {
    let dir = "/h/.aztec-verifier/prebuilt/v1/amd64-linux";
    let (actions1, r1) = run_hit("/h");
    let (actions2, r2) = run_hit("/h");
    assert_eq!(actions1[0], AcquireAction::CheckExists(format!("{dir}/aztec-nargo")));
    assert_eq!(actions1[1], AcquireAction::CheckFiles(required_paths(dir)));
    assert!(actions1.iter().all(|a| !matches!(a, AcquireAction::Download { .. })));
    assert_eq!(actions1, actions2);
    assert_eq!(r1, Ok(paths_at(dir)));
    assert_eq!(r1, r2);
}

#[test]
fn cache_miss_downloads_then_validates() {
    let dir = "/h/.aztec-verifier/prebuilt/v1/amd64-linux";
    let archive = format!("{dir}/toolchain-v1-amd64-linux.tar.gz");
    let mut a = Acquisition::new("/h", "v1", PlatformTag::Amd64Linux);
    a.advance(false);
    assert_eq!(a.action(), AcquireAction::CreateDir(dir.to_string()));
    a.advance(true);
    assert_eq!(
        a.action(),
        AcquireAction::Download {
            url: "https://github.com/hsy822/aztec-contract-verifier/releases/download/v1/toolchain-v1-amd64-linux.tar.gz".to_string(),
            dest: archive.clone(),
        }
    );
    a.advance(true);
    assert_eq!(a.action(), AcquireAction::Extract { archive: archive.clone(), dest: dir.to_string() });
    a.advance(true);
    assert_eq!(a.action(), AcquireAction::RemoveFile(archive));
    a.advance(true);
    assert_eq!(a.phase, AcquirePhase::Validate);
    assert_eq!(
        a.finish(&vec![true, true, false, true]),
        Err(VerifierError::IncompleteToolchain { missing_file: format!("{dir}/avm-transpiler") })
    );
}

#[test]
fn unreachable_archive_fails_with_download_failed() {
    let mut a = Acquisition::new("/empty", "v1", PlatformTag::Amd64Linux);
    a.advance(false);
    a.advance(true);
    a.advance(false);
    assert_eq!(a.phase, AcquirePhase::Failed(FailedStep::Download));
    assert_eq!(a.action(), AcquireAction::Fail(VerifierError::DownloadFailed));
}

#[test]
fn other_failures_stop_with_their_errors() {
    let mut a = Acquisition::new("/h", "v1", PlatformTag::Arm64Linux);
    a.advance(false);
    a.advance(false);
    assert_eq!(a.action(), AcquireAction::Fail(VerifierError::CacheWriteFailed));
    let mut b = Acquisition::new("/h", "v1", PlatformTag::Arm64Linux);
    b.advance(false);
    b.advance(true);
    b.advance(true);
    b.advance(false);
    assert_eq!(b.action(), AcquireAction::Fail(VerifierError::ExtractFailed));
}
