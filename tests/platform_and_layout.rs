use aztec_contract_verifier::error::VerifierError;
use aztec_contract_verifier::layout::{base_name_of, confirm_artifact, join_path, locate, title_case_from, to_pascal_case};
use aztec_contract_verifier::platform::{detect_platform, same_text, PlatformTag};

#[test]
fn supported_hosts_map_to_their_tags() {
    assert_eq!(detect_platform("aarch64", "macos"), Ok(PlatformTag::Arm64Darwin));
    assert_eq!(detect_platform("x86_64", "macos"), Ok(PlatformTag::Amd64Darwin));
    assert_eq!(detect_platform("aarch64", "linux"), Ok(PlatformTag::Arm64Linux));
    assert_eq!(detect_platform("x86_64", "linux"), Ok(PlatformTag::Amd64Linux));
}

#[test]
fn unsupported_hosts_are_refused() {
    assert_eq!(detect_platform("riscv64", "linux"), Err(VerifierError::UnsupportedPlatform));
    assert_eq!(detect_platform("x86_64", "windows"), Err(VerifierError::UnsupportedPlatform));
    assert_eq!(detect_platform("arm", "macos"), Err(VerifierError::UnsupportedPlatform));
    assert_eq!(detect_platform("", ""), Err(VerifierError::UnsupportedPlatform));
}

#[test]
fn tag_texts() {
    assert_eq!(PlatformTag::Arm64Darwin.as_str(), "arm64-darwin");
    assert_eq!(PlatformTag::Amd64Darwin.as_str(), "amd64-darwin");
    assert_eq!(PlatformTag::Arm64Linux.as_str(), "arm64-linux");
    assert_eq!(PlatformTag::Amd64Linux.as_str(), "amd64-linux");
}

#[test]
fn text_comparison() {
    assert!(same_text("linux", "linux"));
    assert!(!same_text("linux", "Linux"));
    assert!(!same_text("linux", "linux2"));
}

#[test]
fn joining_paths() {
    assert_eq!(join_path("/home/u", "x"), "/home/u/x");
    assert_eq!(join_path("/home/u/", "x"), "/home/u/x");
    assert_eq!(join_path("", "x"), "x");
}

#[test]
fn base_names() {
    assert_eq!(base_name_of("./contracts/counter"), Some("counter".to_string()));
    assert_eq!(base_name_of("contracts/counter/"), Some("counter".to_string()));
    assert_eq!(base_name_of("counter"), Some("counter".to_string()));
    assert_eq!(base_name_of("/"), None);
    assert_eq!(base_name_of("contracts/counter/."), Some("counter".to_string()));
    assert_eq!(base_name_of("contracts/counter/./"), Some("counter".to_string()));
    assert_eq!(base_name_of("contracts/.."), None);
    assert_eq!(base_name_of("."), None);
    assert_eq!(base_name_of("./"), None);
    assert_eq!(base_name_of(".hidden"), Some(".hidden".to_string()));
    assert_eq!(base_name_of(""), None);
}

#[test]
fn pascal_case_of_names() {
    assert_eq!(to_pascal_case("counter"), "Counter");
    assert_eq!(to_pascal_case("token_registry"), "TokenRegistry");
    assert_eq!(to_pascal_case("a__b_"), "AB");
    assert_eq!(to_pascal_case("_x"), "X");
    assert_eq!(to_pascal_case(""), "");
    assert_eq!(to_pascal_case("already_Up"), "AlreadyUp");
}

#[test]
fn title_case_from_given_uppercase_forms() {
    let ups: Vec<String> = ["X", "Y", "_", "Z", "W"].iter().map(|s| s.to_string()).collect();
    assert_eq!(title_case_from("ab_cd", &ups), "XbZd");
    let ups: Vec<String> = ["SS", "t"].iter().map(|s| s.to_string()).collect();
    assert_eq!(title_case_from("\u{df}t", &ups), "SSt");
    assert_eq!(to_pascal_case("\u{df}tra\u{df}e"), "SStra\u{df}e");
}

#[test]
fn locate_counter_artifact() {
    let p = locate("counter").unwrap();
    assert!(p.ends_with("counter_contract-Counter.json"));
    assert_eq!(p, "counter/target/counter_contract-Counter.json");
}

#[test]
fn locate_token_registry_artifact() {
    let p = locate("token_registry").unwrap();
    assert!(p.ends_with("token_registry_contract-TokenRegistry.json"));
}

#[test]
fn locate_without_name_fails() {
    assert_eq!(locate("/"), Err(VerifierError::InvalidSourceDir));
    assert_eq!(locate("contracts/.."), Err(VerifierError::InvalidSourceDir));
    assert_eq!(
        locate("contracts/counter/.").unwrap(),
        "contracts/counter/./target/counter_contract-Counter.json"
    );
}

#[test]
fn missing_artifact_is_reported_with_its_path() {
    let p = "c/target/c_contract-C.json".to_string();
    assert_eq!(confirm_artifact(p.clone(), true), Ok(p.clone()));
    assert_eq!(
        confirm_artifact(p.clone(), false),
        Err(VerifierError::ArtifactNotFound { expected_path: p })
    );
}
