use vstd::prelude::*;
use vstd::string::*;

use crate::error::VerifierError;

verus! {

/// The four host kinds for which toolchains are published.
#[derive(Clone, Copy, Debug, PartialEq, Eq, Structural)]
pub enum PlatformTag {
    Arm64Darwin,
    Amd64Darwin,
    Arm64Linux,
    Amd64Linux,
}

/// The text of a platform tag, as used in cache paths and archive names.
pub open spec fn tag_text(t: PlatformTag) -> Seq<char> {
    match t {
        PlatformTag::Arm64Darwin => "arm64-darwin"@,
        PlatformTag::Amd64Darwin => "amd64-darwin"@,
        PlatformTag::Arm64Linux => "arm64-linux"@,
        PlatformTag::Amd64Linux => "amd64-linux"@,
    }
}

/// The (architecture, operating system) pair, in the spelling Rust uses for
/// `target_arch` / `target_os`, that a tag stands for.
pub open spec fn host_pair(t: PlatformTag) -> (Seq<char>, Seq<char>) {
    match t {
        PlatformTag::Arm64Darwin => ("aarch64"@, "macos"@),
        PlatformTag::Amd64Darwin => ("x86_64"@, "macos"@),
        PlatformTag::Arm64Linux => ("aarch64"@, "linux"@),
        PlatformTag::Amd64Linux => ("x86_64"@, "linux"@),
    }
}

/// The tag of a host, or `None` when the pair is not supported.
pub open spec fn platform_of(arch: Seq<char>, os: Seq<char>) -> Option<PlatformTag> {
    if arch == "aarch64"@ && os == "macos"@ {
        Some(PlatformTag::Arm64Darwin)
    } else if arch == "x86_64"@ && os == "macos"@ {
        Some(PlatformTag::Amd64Darwin)
    } else if arch == "aarch64"@ && os == "linux"@ {
        Some(PlatformTag::Arm64Linux)
    } else if arch == "x86_64"@ && os == "linux"@ {
        Some(PlatformTag::Amd64Linux)
    } else {
        None
    }
}

impl PlatformTag {
    pub fn as_str(&self) -> (r: &'static str)
        ensures
            r@ == tag_text(*self),
    {
        match self {
            PlatformTag::Arm64Darwin => "arm64-darwin",
            PlatformTag::Amd64Darwin => "amd64-darwin",
            PlatformTag::Arm64Linux => "arm64-linux",
            PlatformTag::Amd64Linux => "amd64-linux",
        }
    }
}

/// Character-wise equality of two strings.
pub fn same_text(a: &str, b: &str) -> (r: bool)
    ensures
        r == (a@ == b@),
{
    a.to_owned() == b.to_owned()
}

/// Derives the platform tag of a host from its architecture and operating
/// system names; any pair other than the four supported ones is refused.
pub fn detect_platform(arch: &str, os: &str) -> (r: Result<PlatformTag, VerifierError>)
    ensures
        platform_of(arch@, os@) matches Some(t) ==> r == Ok::<PlatformTag, VerifierError>(t),
        platform_of(arch@, os@) is None ==> r matches Err(VerifierError::UnsupportedPlatform),
{
    let arm = same_text(arch, "aarch64");
    let amd = same_text(arch, "x86_64");
    let mac = same_text(os, "macos");
    let linux = same_text(os, "linux");
    if arm && mac {
        Ok(PlatformTag::Arm64Darwin)
    } else if amd && mac {
        Ok(PlatformTag::Amd64Darwin)
    } else if arm && linux {
        Ok(PlatformTag::Arm64Linux)
    } else if amd && linux {
        Ok(PlatformTag::Amd64Linux)
    } else {
        Err(VerifierError::UnsupportedPlatform)
    }
}

/// A host maps to a tag exactly when it is the pair that tag stands for: each
/// supported host gets one tag, and distinct tags come from distinct hosts.
pub proof fn lemma_platform_exactly_one(arch: Seq<char>, os: Seq<char>, t: PlatformTag)
    ensures
        platform_of(arch, os) == Some(t) <==> (arch, os) == host_pair(t),
{
    reveal_strlit("aarch64");
    reveal_strlit("x86_64");
    reveal_strlit("macos");
    reveal_strlit("linux");
    assert("aarch64"@[0] != "x86_64"@[0]);
    assert("macos"@[0] != "linux"@[0]);
}

/// Distinct tags have distinct texts, so a tag is a faithful cache key.
pub proof fn lemma_tag_text_injective(a: PlatformTag, b: PlatformTag)
    ensures
        tag_text(a) == tag_text(b) ==> a == b,
{
    reveal_strlit("arm64-darwin");
    reveal_strlit("amd64-darwin");
    reveal_strlit("arm64-linux");
    reveal_strlit("amd64-linux");
    assert("arm64-darwin"@[1] != "amd64-darwin"@[1]);
    assert("arm64-darwin"@.len() != "arm64-linux"@.len());
    assert("arm64-darwin"@.len() != "amd64-linux"@.len());
    assert("amd64-darwin"@.len() != "arm64-linux"@.len());
    assert("amd64-darwin"@.len() != "amd64-linux"@.len());
    assert("arm64-linux"@[1] != "amd64-linux"@[1]);
}

} // verus!
