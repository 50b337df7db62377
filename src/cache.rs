use vstd::prelude::*;
use vstd::string::*;

use crate::error::VerifierError;
use crate::layout::{join, join_path};
use crate::platform::{tag_text, PlatformTag};
use crate::toolchain::{
    all_present, first_missing, required_name, required_paths, validate_toolchain, ToolchainPaths,
    REQUIRED_COUNT,
};

verus! {

/// `<home>/.aztec-verifier/prebuilt/<version>/<platform>`: the cache
/// directory of one (version, platform) key.
pub open spec fn cache_dir(home: Seq<char>, version: Seq<char>, platform: PlatformTag) -> Seq<
    char,
> {
    join(join(join(join(home, ".aztec-verifier"@), "prebuilt"@), version), tag_text(platform))
}

/// `toolchain-<version>-<platform>.tar.gz`
pub open spec fn archive_name(version: Seq<char>, platform: PlatformTag) -> Seq<char> {
    "toolchain-"@ + version + "-"@ + tag_text(platform) + ".tar.gz"@
}

/// The release location the archive of a key is fetched from.
pub open spec fn download_url(version: Seq<char>, platform: PlatformTag) -> Seq<char> {
    "https://github.com/hsy822/aztec-contract-verifier/releases/download/"@ + version + "/"@
        + archive_name(version, platform)
}

/// Where the toolchain of one cache key lives and comes from.
#[derive(Clone, Debug, PartialEq, Eq)]
pub struct CacheLayout {
    /// The cache directory.
    pub dir: String,
    /// The file whose presence marks the directory as populated.
    pub marker: String,
    /// Where the downloaded archive is kept until it is unpacked.
    pub archive: String,
    /// Where the archive is downloaded from.
    pub url: String,
}

impl CacheLayout {
    pub open spec fn is_for(&self, home: Seq<char>, version: Seq<char>, platform: PlatformTag) -> bool {
        &&& self.dir@ == cache_dir(home, version, platform)
        &&& self.marker@ == join(self.dir@, required_name(0))
        &&& self.archive@ == join(self.dir@, archive_name(version, platform))
        &&& self.url@ == download_url(version, platform)
    }
}

pub fn cache_layout(home: &str, version: &str, platform: PlatformTag) -> (r: CacheLayout)
    ensures
        r.is_for(home@, version@, platform),
{
    let base = join_path(home, ".aztec-verifier");
    let prebuilt = join_path(base.as_str(), "prebuilt");
    let versioned = join_path(prebuilt.as_str(), version);
    let dir = join_path(versioned.as_str(), platform.as_str());
    let marker = join_path(dir.as_str(), "aztec-nargo");
    let name = archive_file_name(version, platform);
    let archive = join_path(dir.as_str(), name.as_str());
    let url = String::from_str(
        "https://github.com/hsy822/aztec-contract-verifier/releases/download/",
    ).concat(version).concat("/").concat(name.as_str());
    CacheLayout { dir, marker, archive, url }
}

/// The archive file name of a key.
pub fn archive_file_name(version: &str, platform: PlatformTag) -> (r: String)
    ensures
        r@ == archive_name(version@, platform),
{
    String::from_str("toolchain-").concat(version).concat("-").concat(platform.as_str()).concat(
        ".tar.gz",
    )
}

/// `<home>/.aztec-verifier/compilers/<version>/aztec-nargo`: where a single
/// downloaded compiler wrapper of a version is kept.
pub fn get_compiler_path(home: &str, version: &str) -> (r: String)
    ensures
        r@ == join(join(join(home@, ".aztec-verifier/compilers"@), version@), "aztec-nargo"@),
{
    let base = join_path(home, ".aztec-verifier/compilers");
    let versioned = join_path(base.as_str(), version);
    join_path(versioned.as_str(), "aztec-nargo")
}

/// The value of the authorization header sent with a download when an
/// access token is available.
pub fn auth_header(token: &str) -> (r: String)
    ensures
        r@ == "Authorization: token "@ + token@,
{
    String::from_str("Authorization: token ").concat(token)
}

/// The step of an acquisition that failed.
#[derive(Clone, Copy, Debug, PartialEq, Eq, Structural)]
pub enum FailedStep {
    CacheWrite,
    Download,
    Extract,
}

/// Where an acquisition stands. Each phase but the last two waits for the
/// outcome of one outside step; `Validate` waits for the file checks and
/// `Failed` is final.
#[derive(Clone, Copy, Debug, PartialEq, Eq, Structural)]
pub enum AcquirePhase {
    CheckMarker,
    CreateDir,
    Download,
    Extract,
    RemoveArchive,
    Validate,
    Failed(FailedStep),
}

/// The outside work an acquisition asks for next.
#[derive(Clone, Debug, PartialEq, Eq)]
pub enum AcquireAction {
    /// Report whether this file exists.
    CheckExists(String),
    /// Create this directory and its parents.
    CreateDir(String),
    /// Fetch `url` into the file `dest`.
    Download { url: String, dest: String },
    /// Unpack the gzip tar archive into the directory `dest`.
    Extract { archive: String, dest: String },
    /// Delete this file.
    RemoveFile(String),
    /// Report, for each of these files in order, whether it exists.
    CheckFiles(Vec<String>),
    /// Stop: the acquisition failed with this error.
    Fail(VerifierError),
}

pub open spec fn failure_error(s: FailedStep) -> VerifierError {
    match s {
        FailedStep::CacheWrite => VerifierError::CacheWriteFailed,
        FailedStep::Download => VerifierError::DownloadFailed,
        FailedStep::Extract => VerifierError::ExtractFailed,
    }
}

pub open spec fn is_final(p: AcquirePhase) -> bool {
    p is Validate || p is Failed
}

/// The phase that follows `p` when its step succeeded (`ok`) or failed.
/// A populated cache skips straight to validation; any failed step is final.
pub open spec fn next_phase(p: AcquirePhase, ok: bool) -> AcquirePhase {
    match p {
        AcquirePhase::CheckMarker => if ok {
            AcquirePhase::Validate
        } else {
            AcquirePhase::CreateDir
        },
        AcquirePhase::CreateDir => if ok {
            AcquirePhase::Download
        } else {
            AcquirePhase::Failed(FailedStep::CacheWrite)
        },
        AcquirePhase::Download => if ok {
            AcquirePhase::Extract
        } else {
            AcquirePhase::Failed(FailedStep::Download)
        },
        AcquirePhase::Extract => if ok {
            AcquirePhase::RemoveArchive
        } else {
            AcquirePhase::Failed(FailedStep::Extract)
        },
        AcquirePhase::RemoveArchive => if ok {
            AcquirePhase::Validate
        } else {
            AcquirePhase::Failed(FailedStep::CacheWrite)
        },
        _ => p,
    }
}

/// The phase reached from `p` after the given step outcomes, in order.
pub open spec fn phase_after(p: AcquirePhase, outcomes: Seq<bool>) -> AcquirePhase
    decreases outcomes.len(),
{
    if outcomes.len() == 0 {
        p
    } else {
        phase_after(next_phase(p, outcomes[0]), outcomes.drop_first())
    }
}

/// The action a phase asks for, given the layout of the key.
pub open spec fn action_fits(layout: CacheLayout, p: AcquirePhase, a: AcquireAction) -> bool {
    match p {
        AcquirePhase::CheckMarker => (a matches AcquireAction::CheckExists(f) && f@ == layout.marker@),
        AcquirePhase::CreateDir => (a matches AcquireAction::CreateDir(d) && d@ == layout.dir@),
        AcquirePhase::Download => (a matches AcquireAction::Download { url, dest } && url@
            == layout.url@ && dest@ == layout.archive@),
        AcquirePhase::Extract => (a matches AcquireAction::Extract { archive, dest } && archive@
            == layout.archive@ && dest@ == layout.dir@),
        AcquirePhase::RemoveArchive => (a matches AcquireAction::RemoveFile(f) && f@
            == layout.archive@),
        AcquirePhase::Validate => (a matches AcquireAction::CheckFiles(fs) && fs@.len()
            == REQUIRED_COUNT && forall|i: int|
            0 <= i < REQUIRED_COUNT ==> #[trigger] fs@[i]@ == join(layout.dir@, required_name(i))),
        AcquirePhase::Failed(s) => a == AcquireAction::Fail(failure_error(s)),
    }
}

/// Fetching and caching the toolchain of one (version, platform) key, as a
/// sequence of decisions. The caller performs each `action`, reports its
/// outcome with `advance`, and once the phase is `Validate` hands the file
/// checks to `finish`. An existing marker file counts as a complete cache;
/// otherwise the directory is created, the archive downloaded, unpacked and
/// removed. A partially populated directory is left in place on failure.
#[derive(Clone, Debug, PartialEq, Eq)]
pub struct Acquisition {
    pub layout: CacheLayout,
    pub phase: AcquirePhase,
}

impl Acquisition {
    pub fn new(home: &str, version: &str, platform: PlatformTag) -> (r: Acquisition)
        ensures
            r.layout.is_for(home@, version@, platform),
            r.phase == AcquirePhase::CheckMarker,
    {
        Acquisition { layout: cache_layout(home, version, platform), phase: AcquirePhase::CheckMarker }
    }

    pub fn action(&self) -> (r: AcquireAction)
        ensures
            action_fits(self.layout, self.phase, r),
    {
        match self.phase {
            AcquirePhase::CheckMarker => AcquireAction::CheckExists(self.layout.marker.clone()),
            AcquirePhase::CreateDir => AcquireAction::CreateDir(self.layout.dir.clone()),
            AcquirePhase::Download => AcquireAction::Download {
                url: self.layout.url.clone(),
                dest: self.layout.archive.clone(),
            },
            AcquirePhase::Extract => AcquireAction::Extract {
                archive: self.layout.archive.clone(),
                dest: self.layout.dir.clone(),
            },
            AcquirePhase::RemoveArchive => AcquireAction::RemoveFile(self.layout.archive.clone()),
            AcquirePhase::Validate => AcquireAction::CheckFiles(
                required_paths(self.layout.dir.as_str()),
            ),
            AcquirePhase::Failed(s) => AcquireAction::Fail(
                match s {
                    FailedStep::CacheWrite => VerifierError::CacheWriteFailed,
                    FailedStep::Download => VerifierError::DownloadFailed,
                    FailedStep::Extract => VerifierError::ExtractFailed,
                },
            ),
        }
    }

    /// Records the outcome of the step the current phase asked for.
    pub fn advance(&mut self, ok: bool)
        requires
            !is_final(old(self).phase),
        ensures
            final(self).phase == next_phase(old(self).phase, ok),
            final(self).layout == old(self).layout,
    {
        self.phase = match self.phase {
            AcquirePhase::CheckMarker => if ok {
                AcquirePhase::Validate
            } else {
                AcquirePhase::CreateDir
            },
            AcquirePhase::CreateDir => if ok {
                AcquirePhase::Download
            } else {
                AcquirePhase::Failed(FailedStep::CacheWrite)
            },
            AcquirePhase::Download => if ok {
                AcquirePhase::Extract
            } else {
                AcquirePhase::Failed(FailedStep::Download)
            },
            AcquirePhase::Extract => if ok {
                AcquirePhase::RemoveArchive
            } else {
                AcquirePhase::Failed(FailedStep::Extract)
            },
            AcquirePhase::RemoveArchive => if ok {
                AcquirePhase::Validate
            } else {
                AcquirePhase::Failed(FailedStep::CacheWrite)
            },
            other => other,
        };
    }

    /// Validates the cache directory from the file checks that the
    /// `Validate` phase asked for.
    pub fn finish(&self, present: &Vec<bool>) -> (r: Result<ToolchainPaths, VerifierError>)
        requires
            self.phase == AcquirePhase::Validate,
            present@.len() == REQUIRED_COUNT,
        ensures
            r is Ok <==> all_present(present@),
            r matches Ok(tc) ==> tc.located_at(self.layout.dir@),
            forall|k: int|
                first_missing(present@, k) ==> (r matches Err(
                    VerifierError::IncompleteToolchain { missing_file },
                ) && missing_file@ == join(self.layout.dir@, required_name(k))),
    {
        validate_toolchain(self.layout.dir.as_str(), present)
    }
}

proof fn lemma_final_phase_stays(p: AcquirePhase, outcomes: Seq<bool>)
    requires
        is_final(p),
    ensures
        phase_after(p, outcomes) == p,
    decreases outcomes.len(),
{
    if outcomes.len() > 0 {
        lemma_final_phase_stays(p, outcomes.drop_first());
    }
}

proof fn lemma_phase_after_concat(p: AcquirePhase, s: Seq<bool>, t: Seq<bool>)
    ensures
        phase_after(p, s + t) == phase_after(phase_after(p, s), t),
    decreases s.len(),
{
    if s.len() > 0 {
        assert((s + t).drop_first() == s.drop_first() + t);
        lemma_phase_after_concat(next_phase(p, s[0]), s.drop_first(), t);
    }
}

/// A cache hit never fetches: once the marker check succeeds, no later
/// outcome leads to a download or an unpacking. Two acquisitions of one key
/// use the same directory, so the toolchains they return are identical, and
/// the marker is the first file that validation requires, so a successful
/// acquisition leaves the next one a hit.
pub proof fn lemma_cache_hit_never_downloads(
    outcomes: Seq<bool>,
    home: Seq<char>,
    version: Seq<char>,
    platform: PlatformTag,
    first: Acquisition,
    second: Acquisition,
    tc1: ToolchainPaths,
    tc2: ToolchainPaths,
)
    requires
        outcomes.len() > 0,
        outcomes[0],
        first.layout.is_for(home, version, platform),
        second.layout.is_for(home, version, platform),
        tc1.located_at(first.layout.dir@),
        tc2.located_at(second.layout.dir@),
    ensures
        forall|k: int|
            0 <= k <= outcomes.len() ==> !(#[trigger] phase_after(
                AcquirePhase::CheckMarker,
                outcomes.take(k),
            ) is Download) && !(phase_after(AcquirePhase::CheckMarker, outcomes.take(k)) is Extract),
        tc1@ == tc2@,
        first.layout.marker@ == tc1.aztec_nargo@,
{
    assert forall|k: int| 0 <= k <= outcomes.len() implies !(#[trigger] phase_after(
        AcquirePhase::CheckMarker,
        outcomes.take(k),
    ) is Download) && !(phase_after(AcquirePhase::CheckMarker, outcomes.take(k)) is Extract) by {
        if k > 0 {
            let s = outcomes.take(k);
            assert(s[0] == outcomes[0]);
            lemma_final_phase_stays(AcquirePhase::Validate, s.drop_first());
        }
    }
}

/// A failed download is final: every later phase is `Failed(Download)`, whose
/// action is to stop with `DownloadFailed`, so nothing is unpacked and the
/// marker file is never created by that acquisition.
pub proof fn lemma_failed_download_stops(outcomes: Seq<bool>, i: int)
    requires
        0 <= i < outcomes.len(),
        phase_after(AcquirePhase::CheckMarker, outcomes.take(i)) == AcquirePhase::Download,
        !outcomes[i],
    ensures
        forall|k: int|
            i < k <= outcomes.len() ==> #[trigger] phase_after(
                AcquirePhase::CheckMarker,
                outcomes.take(k),
            ) == AcquirePhase::Failed(FailedStep::Download),
        failure_error(FailedStep::Download) == VerifierError::DownloadFailed,
{
    assert forall|k: int| i < k <= outcomes.len() implies #[trigger] phase_after(
        AcquirePhase::CheckMarker,
        outcomes.take(k),
    ) == AcquirePhase::Failed(FailedStep::Download) by {
        let head = outcomes.take(i);
        let step = seq![outcomes[i]];
        let rest = outcomes.subrange(i + 1, k);
        assert(outcomes.take(k) == head + step + rest);
        lemma_phase_after_concat(AcquirePhase::CheckMarker, head + step, rest);
        lemma_phase_after_concat(AcquirePhase::CheckMarker, head, step);
        assert(step[0] == outcomes[i]);
        assert(step.drop_first() == Seq::<bool>::empty());
        assert(phase_after(AcquirePhase::Download, step) == phase_after(
            AcquirePhase::Failed(FailedStep::Download),
            Seq::<bool>::empty(),
        ));
        lemma_final_phase_stays(AcquirePhase::Failed(FailedStep::Download), rest);
    }
}

} // verus!
