use vstd::prelude::*;
use vstd::string::*;

use crate::error::VerifierError;
use crate::platform::same_text;

verus! {

/// Appends a path component with a single `/` between the two parts. The
/// components joined here (version tags, fixed file names) are relative.
pub open spec fn join(a: Seq<char>, b: Seq<char>) -> Seq<char> {
    if a.len() == 0 {
        b
    } else if a.last() == '/' {
        a + b
    } else {
        a + seq!['/'] + b
    }
}

pub fn join_path(a: &str, b: &str) -> (r: String)
    ensures
        r@ == join(a@, b@),
{
    let n = a.unicode_len();
    if n == 0 {
        b.to_owned()
    } else if a.get_char(n - 1) == '/' {
        a.to_owned().concat(b)
    } else {
        proof {
            reveal_strlit("/");
        }
        a.to_owned().concat("/").concat(b)
    }
}

/// The last character of `s` can go without changing the path's final
/// component: it is a separator, or the `.` of a trailing `/.`.
pub open spec fn droppable_tail(s: Seq<char>) -> bool {
    s.len() > 0 && (s.last() == '/' || (s.len() >= 2 && s.last() == '.' && s[s.len() - 2] == '/'))
}

/// A path with its trailing separators and `/.` components removed.
pub open spec fn trim_trailing_slashes(s: Seq<char>) -> Seq<char>
    decreases s.len(),
{
    if droppable_tail(s) {
        trim_trailing_slashes(s.drop_last())
    } else {
        s
    }
}

/// The text after the last separator (all of `s` when it has none).
pub open spec fn last_segment(s: Seq<char>) -> Seq<char>
    decreases s.len(),
{
    if s.len() == 0 || s.last() == '/' {
        Seq::empty()
    } else {
        last_segment(s.drop_last()).push(s.last())
    }
}

/// The final component of a `/`-separated path, if it names an entry: none
/// when the path is empty or ends in `.` or `..` (a trailing `/.` is passed
/// over, as in `a/b/.`).
pub open spec fn base_name(s: Seq<char>) -> Option<Seq<char>> {
    let name = last_segment(trim_trailing_slashes(s));
    if name.len() == 0 || name == "."@ || name == ".."@ {
        None
    } else {
        Some(name)
    }
}

fn droppable_at(path: &str, end: usize) -> (r: bool)
    requires
        end <= path@.len(),
    ensures
        r == droppable_tail(path@.subrange(0, end as int)),
{
    end > 0 && (path.get_char(end - 1) == '/' || (end >= 2 && path.get_char(end - 1) == '.'
        && path.get_char(end - 2) == '/'))
}

pub fn base_name_of(path: &str) -> (r: Option<String>)
    ensures
        r matches Some(n) ==> base_name(path@) == Some(n@),
        r is None ==> base_name(path@) is None,
{
    let n = path.unicode_len();
    assert(path@.subrange(0, n as int) == path@);
    let mut end: usize = n;
    let mut trailing = droppable_at(path, end);
    while trailing
        invariant
            end <= n,
            n == path@.len(),
            trailing == droppable_tail(path@.subrange(0, end as int)),
            trim_trailing_slashes(path@) == trim_trailing_slashes(path@.subrange(0, end as int)),
        decreases end,
    {
        assert(path@.subrange(0, end as int).drop_last() == path@.subrange(0, end - 1));
        end = end - 1;
        trailing = droppable_at(path, end);
    }
    assert(trim_trailing_slashes(path@.subrange(0, end as int)) == path@.subrange(0, end as int));
    let mut start: usize = end;
    let mut inside = start > 0 && path.get_char(start - 1) != '/';
    while inside
        invariant
            start <= end <= n,
            n == path@.len(),
            inside == (start > 0 && path@[start - 1] != '/'),
            last_segment(path@.subrange(0, end as int)) == last_segment(
                path@.subrange(0, start as int),
            ) + path@.subrange(start as int, end as int),
        decreases start,
    {
        assert(path@.subrange(0, start as int).drop_last() == path@.subrange(0, start - 1));
        assert(path@.subrange(start - 1, end as int) == seq![path@[start - 1]] + path@.subrange(
            start as int,
            end as int,
        ));
        start = start - 1;
        inside = start > 0 && path.get_char(start - 1) != '/';
    }
    assert(last_segment(path@.subrange(0, start as int)) == Seq::<char>::empty());
    assert(last_segment(path@.subrange(0, end as int)) == path@.subrange(start as int, end as int));
    let name = path.substring_char(start, end);
    if start == end || same_text(name, ".") || same_text(name, "..") {
        None
    } else {
        Some(name.to_owned())
    }
}

/// What `char::to_uppercase` yields for a character.
pub uninterp spec fn upper_of(c: char) -> Seq<char>;

/// Relies on `char::to_uppercase`: the uppercase mapping of one character,
/// which depends on that character alone.
#[verifier::external_body]
fn uppercase_char(c: char) -> (r: String)
    ensures
        r@ == upper_of(c),
{
    c.to_uppercase().collect::<String>()
}

/// Title-casing of an underscore-separated name, given in `ups[i]` the
/// uppercase form of each character `s[i]`: the separators are dropped and
/// the first character of each segment is replaced by its uppercase form.
/// Stated over prefixes: the last character of a prefix is dropped when it
/// is `_`, uppercased when it opens a segment, and kept otherwise.
pub open spec fn title_case_with(s: Seq<char>, ups: Seq<Seq<char>>) -> Seq<char>
    decreases s.len(),
{
    if s.len() == 0 {
        Seq::empty()
    } else {
        let i = s.len() - 1;
        let init = title_case_with(s.drop_last(), ups.drop_last());
        if s[i] == '_' {
            init
        } else if i == 0 || s[i - 1] == '_' {
            init + ups[i]
        } else {
            init.push(s[i])
        }
    }
}

/// The uppercase form of each character of `s`.
pub open spec fn uppers_of(s: Seq<char>) -> Seq<Seq<char>> {
    Seq::new(s.len(), |i: int| upper_of(s[i]))
}

/// Title-casing with `char::to_uppercase` (`token_registry` becomes
/// `TokenRegistry`).
pub open spec fn pascal_case(s: Seq<char>) -> Seq<char> {
    title_case_with(s, uppers_of(s))
}

/// Title-cases `s` from the uppercase forms of its characters, one string
/// per character.
pub fn title_case_from(s: &str, uppers: &Vec<String>) -> (r: String)
    requires
        uppers@.len() == s@.len(),
    ensures
        r@ == title_case_with(s@, uppers.deep_view()),
{
    let n = s.unicode_len();
    let ghost ups = uppers.deep_view();
    let mut out = String::new();
    let mut i: usize = 0;
    while i < n
        invariant
            i <= n,
            n == s@.len(),
            uppers@.len() == n,
            ups == uppers.deep_view(),
            out@ == title_case_with(s@.subrange(0, i as int), ups.subrange(0, i as int)),
        decreases n - i,
    {
        let c = s.get_char(i);
        assert(s@.subrange(0, i + 1).drop_last() == s@.subrange(0, i as int));
        assert(ups.subrange(0, i + 1).drop_last() == ups.subrange(0, i as int));
        if c == '_' {
        } else if i == 0 || s.get_char(i - 1) == '_' {
            out.append(uppers[i].as_str());
        } else {
            out.append(s.substring_char(i, i + 1));
            assert(s@.subrange(i as int, i + 1) == seq![c]);
        }
        i = i + 1;
    }
    assert(s@.subrange(0, n as int) == s@);
    assert(ups.subrange(0, n as int) == ups);
    out
}

pub fn to_pascal_case(s: &str) -> (r: String)
    ensures
        r@ == pascal_case(s@),
{
    let n = s.unicode_len();
    let mut uppers: Vec<String> = Vec::new();
    let mut i: usize = 0;
    while i < n
        invariant
            i <= n,
            n == s@.len(),
            uppers.deep_view() == uppers_of(s@).subrange(0, i as int),
        decreases n - i,
    {
        let c = s.get_char(i);
        let u = uppercase_char(c);
        let ghost before = uppers.deep_view();
        uppers.push(u);
        assert(uppers.deep_view() =~= before.push(upper_of(c)));
        assert(uppers.deep_view() =~= uppers_of(s@).subrange(0, i + 1));
        i = i + 1;
    }
    assert(uppers_of(s@).subrange(0, n as int) == uppers_of(s@));
    title_case_from(s, &uppers)
}

/// The file name the compiler gives the artifact of a contract directory.
pub open spec fn artifact_file_name(name: Seq<char>) -> Seq<char> {
    name + "_contract-"@ + pascal_case(name) + ".json"@
}

/// Where compilation of a contract source directory leaves its artifact.
pub open spec fn artifact_path_of(source_dir: Seq<char>) -> Option<Seq<char>> {
    match base_name(source_dir) {
        Some(name) => Some(join(join(source_dir, "target"@), artifact_file_name(name))),
        None => None,
    }
}

/// Computes the expected artifact path of a contract source directory:
/// `<source_dir>/target/<name>_contract-<TitleCase(name)>.json`.
pub fn locate(source_dir: &str) -> (r: Result<String, VerifierError>)
    ensures
        r matches Ok(p) ==> artifact_path_of(source_dir@) == Some(p@),
        r is Err ==> r matches Err(VerifierError::InvalidSourceDir),
        artifact_path_of(source_dir@) is None ==> r is Err,
        artifact_path_of(source_dir@) is Some ==> r is Ok,
{
    match base_name_of(source_dir) {
        Some(name) => {
            let dir = join_path(source_dir, "target");
            let file = name.clone().concat("_contract-").concat(to_pascal_case(name.as_str()).as_str()).concat(".json");
            Ok(join_path(dir.as_str(), file.as_str()))
        },
        None => Err(VerifierError::InvalidSourceDir),
    }
}

/// The check that compilation produced its artifact: the path comes back
/// when the file exists, and `ArtifactNotFound` names it otherwise.
pub fn confirm_artifact(path: String, exists: bool) -> (r: Result<String, VerifierError>)
    ensures
        exists ==> r == Ok::<String, VerifierError>(path),
        !exists ==> (r matches Err(VerifierError::ArtifactNotFound { expected_path })
            && expected_path == path),
{
    if exists {
        Ok(path)
    } else {
        Err(VerifierError::ArtifactNotFound { expected_path: path })
    }
}

} // verus!
