use vstd::prelude::*;

use crate::cache::{archive_file_name, archive_name};
use crate::error::VerifierError;
use crate::platform::PlatformTag;

verus! {

/// A published release: its tag and the file names of its assets.
#[derive(Clone, Debug, PartialEq, Eq)]
pub struct Release {
    pub tag_name: String,
    pub assets: Vec<String>,
}

/// The release carries the toolchain archive of its own tag for `platform`.
pub open spec fn offers(r: Release, platform: PlatformTag) -> bool {
    exists|j: int|
        0 <= j < r.assets@.len() && #[trigger] r.assets@[j]@ == archive_name(r.tag_name@, platform)
}

/// The tags of the releases that offer a toolchain for `platform`, in the
/// order the releases are listed.
pub open spec fn prebuilt_tags(rs: Seq<Release>, platform: PlatformTag) -> Seq<Seq<char>>
    decreases rs.len(),
{
    if rs.len() == 0 {
        Seq::empty()
    } else {
        let init = prebuilt_tags(rs.drop_last(), platform);
        if offers(rs.last(), platform) {
            init.push(rs.last().tag_name@)
        } else {
            init
        }
    }
}

fn release_offers(r: &Release, platform: PlatformTag) -> (b: bool)
    ensures
        b == offers(*r, platform),
{
    let expected = archive_file_name(r.tag_name.as_str(), platform);
    let mut j: usize = 0;
    while j < r.assets.len()
        invariant
            j <= r.assets@.len(),
            expected@ == archive_name(r.tag_name@, platform),
            forall|k: int| 0 <= k < j ==> #[trigger] r.assets@[k]@ != expected@,
        decreases r.assets@.len() - j,
    {
        if r.assets[j] == expected {
            return true;
        }
        j = j + 1;
    }
    false
}

/// Picks, from a release listing, the versions for which a prebuilt
/// toolchain exists on `platform`, keeping the listing's order. A listing
/// with none is an error.
pub fn fetch_prebuilt_versions(releases: &Vec<Release>, platform: PlatformTag) -> (r: Result<
    Vec<String>,
    VerifierError,
>)
    ensures
        r matches Ok(tags) ==> tags.deep_view() == prebuilt_tags(releases@, platform),
        r is Err <==> prebuilt_tags(releases@, platform).len() == 0,
        r is Err ==> r matches Err(VerifierError::NoPrebuiltToolchains),
{
    let mut tags: Vec<String> = Vec::new();
    let mut i: usize = 0;
    while i < releases.len()
        invariant
            i <= releases@.len(),
            tags.deep_view() == prebuilt_tags(releases@.take(i as int), platform),
        decreases releases@.len() - i,
    {
        assert(releases@.take(i + 1).drop_last() == releases@.take(i as int));
        if release_offers(&releases[i], platform) {
            tags.push(releases[i].tag_name.clone());
        }
        assert(tags.deep_view() =~= prebuilt_tags(releases@.take(i + 1), platform));
        i = i + 1;
    }
    assert(releases@.take(releases@.len() as int) == releases@);
    if tags.len() == 0 {
        Err(VerifierError::NoPrebuiltToolchains)
    } else {
        Ok(tags)
    }
}

/// Lexicographic order on text by code point, the order in which std
/// compares `String`s (UTF-8 keeps code-point order byte for byte).
pub open spec fn text_le(a: Seq<char>, b: Seq<char>) -> bool
    decreases a.len(),
{
    if a.len() == 0 {
        true
    } else if b.len() == 0 {
        false
    } else if a[0] as u32 != b[0] as u32 {
        (a[0] as u32) < (b[0] as u32)
    } else {
        text_le(a.drop_first(), b.drop_first())
    }
}

proof fn lemma_text_le_total(a: Seq<char>, b: Seq<char>)
    ensures
        text_le(a, b) || text_le(b, a),
    decreases a.len(),
{
    if a.len() > 0 && b.len() > 0 && a[0] as u32 == b[0] as u32 {
        lemma_text_le_total(a.drop_first(), b.drop_first());
    }
}

proof fn lemma_text_le_transitive(a: Seq<char>, b: Seq<char>, c: Seq<char>)
    requires
        text_le(a, b),
        text_le(b, c),
    ensures
        text_le(a, c),
    decreases a.len(),
{
    if a.len() > 0 && b.len() > 0 && c.len() > 0 && a[0] as u32 == b[0] as u32 && b[0] as u32
        == c[0] as u32 {
        lemma_text_le_transitive(a.drop_first(), b.drop_first(), c.drop_first());
    }
}

pub fn text_le_of(a: &str, b: &str) -> (r: bool)
    ensures
        r == text_le(a@, b@),
{
    let n = a.unicode_len();
    let m = b.unicode_len();
    let mut i: usize = 0;
    assert(a@.skip(0) == a@);
    assert(b@.skip(0) == b@);
    while i < n && i < m
        invariant
            i <= n,
            i <= m,
            n == a@.len(),
            m == b@.len(),
            text_le(a@, b@) == text_le(a@.skip(i as int), b@.skip(i as int)),
        decreases n - i,
    {
        let x = a.get_char(i);
        let y = b.get_char(i);
        if x as u32 != y as u32 {
            return (x as u32) < (y as u32);
        }
        assert(a@.skip(i as int).drop_first() == a@.skip(i + 1));
        assert(b@.skip(i as int).drop_first() == b@.skip(i + 1));
        i = i + 1;
    }
    i == n
}

/// The greatest of a list of version names in `text_le` order, the newest
/// when versions are named so that they sort; `None` for an empty list.
pub fn latest_version(names: &Vec<String>) -> (r: Option<String>)
    ensures
        r is None <==> names@.len() == 0,
        r matches Some(v) ==> exists|i: int| 0 <= i < names@.len() && #[trigger] names@[i]@ == v@,
        r matches Some(v) ==> forall|j: int|
            0 <= j < names@.len() ==> text_le(#[trigger] names@[j]@, v@),
{
    if names.len() == 0 {
        return None;
    }
    let mut best: usize = 0;
    let mut i: usize = 1;
    proof {
        lemma_text_le_total(names@[0]@, names@[0]@);
    }
    while i < names.len()
        invariant
            1 <= i <= names@.len(),
            best < names@.len(),
            forall|j: int| 0 <= j < i ==> text_le(#[trigger] names@[j]@, names@[best as int]@),
        decreases names@.len() - i,
    {
        if text_le_of(names[best].as_str(), names[i].as_str()) {
            assert forall|j: int| 0 <= j <= i implies text_le(
                #[trigger] names@[j]@,
                names@[i as int]@,
            ) by {
                if j < i {
                    lemma_text_le_transitive(names@[j]@, names@[best as int]@, names@[i as int]@);
                } else {
                    lemma_text_le_total(names@[j]@, names@[j]@);
                }
            }
            best = i;
        } else {
            proof {
                lemma_text_le_total(names@[best as int]@, names@[i as int]@);
            }
        }
        i = i + 1;
    }
    let v = names[best].clone();
    assert(names@[best as int]@ == v@);
    Some(v)
}

} // verus!
