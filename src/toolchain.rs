use vstd::prelude::*;

use crate::error::VerifierError;
use crate::layout::{join, join_path};

verus! {

/// Paths of a validated toolchain: its directory and the four executables
/// that compilation needs.
#[derive(Clone, Debug, PartialEq, Eq)]
pub struct ToolchainPaths {
    pub root: String,
    /// The wrapper script that drives the other three.
    pub aztec_nargo: String,
    /// The core compiler.
    pub nargo: String,
    /// The bytecode transpiler.
    pub transpiler: String,
    /// The proof backend.
    pub bb: String,
}

/// The number of executables a toolchain directory must hold.
pub const REQUIRED_COUNT: usize = 4;

/// The file names of the required executables, in the order they are checked.
/// The first one doubles as the marker of a populated cache directory.
pub open spec fn required_name(i: int) -> Seq<char> {
    if i == 0 {
        "aztec-nargo"@
    } else if i == 1 {
        "nargo"@
    } else if i == 2 {
        "avm-transpiler"@
    } else {
        "bb"@
    }
}

impl View for ToolchainPaths {
    type V = (Seq<char>, Seq<char>, Seq<char>, Seq<char>, Seq<char>);

    open spec fn view(&self) -> Self::V {
        (self.root@, self.aztec_nargo@, self.nargo@, self.transpiler@, self.bb@)
    }
}

impl ToolchainPaths {
    /// The paths are those of a toolchain directory `root`.
    pub open spec fn located_at(&self, root: Seq<char>) -> bool {
        &&& self.root@ == root
        &&& self.aztec_nargo@ == join(root, required_name(0))
        &&& self.nargo@ == join(root, required_name(1))
        &&& self.transpiler@ == join(root, required_name(2))
        &&& self.bb@ == join(root, required_name(3))
    }

    fn at(root: &str) -> (r: ToolchainPaths)
        ensures
            r.located_at(root@),
    {
        ToolchainPaths {
            root: root.to_owned(),
            aztec_nargo: join_path(root, "aztec-nargo"),
            nargo: join_path(root, "nargo"),
            transpiler: join_path(root, "avm-transpiler"),
            bb: join_path(root, "bb"),
        }
    }
}

/// The full paths of the required executables under `root`, in check order.
pub fn required_paths(root: &str) -> (r: Vec<String>)
    ensures
        r@.len() == REQUIRED_COUNT,
        forall|i: int| 0 <= i < REQUIRED_COUNT ==> #[trigger] r@[i]@ == join(root@, required_name(i)),
{
    let mut r: Vec<String> = Vec::new();
    r.push(join_path(root, "aztec-nargo"));
    r.push(join_path(root, "nargo"));
    r.push(join_path(root, "avm-transpiler"));
    r.push(join_path(root, "bb"));
    r
}

pub open spec fn all_present(present: Seq<bool>) -> bool {
    forall|i: int| 0 <= i < present.len() ==> #[trigger] present[i]
}

/// `k` is the first position whose file is absent.
pub open spec fn first_missing(present: Seq<bool>, k: int) -> bool {
    &&& 0 <= k < present.len()
    &&& !present[k]
    &&& forall|j: int| 0 <= j < k ==> #[trigger] present[j]
}

/// Checks a candidate toolchain directory. `present[i]` tells whether the
/// `i`-th required executable (see `required_paths`) exists; other files in
/// the directory play no part. Success yields the toolchain's paths; the
/// first absent executable is named otherwise.
pub fn validate_toolchain(root: &str, present: &Vec<bool>) -> (r: Result<
    ToolchainPaths,
    VerifierError,
>)
    requires
        present@.len() == REQUIRED_COUNT,
    ensures
        r is Ok <==> all_present(present@),
        r matches Ok(tc) ==> tc.located_at(root@),
        forall|k: int|
            first_missing(present@, k) ==> (r matches Err(
                VerifierError::IncompleteToolchain { missing_file },
            ) && missing_file@ == join(root@, required_name(k))),
        forall|k: int|
            0 <= k < REQUIRED_COUNT && !present@[k] && (forall|j: int|
                0 <= j < REQUIRED_COUNT && j != k ==> #[trigger] present@[j]) ==> (r matches Err(
                VerifierError::IncompleteToolchain { missing_file },
            ) && missing_file@ == join(root@, required_name(k))),
{
    let paths = required_paths(root);
    let mut i: usize = 0;
    while i < REQUIRED_COUNT
        invariant
            i <= REQUIRED_COUNT,
            present@.len() == REQUIRED_COUNT,
            paths@.len() == REQUIRED_COUNT,
            forall|k: int| 0 <= k < REQUIRED_COUNT ==> #[trigger] paths@[k]@ == join(root@, required_name(k)),
            forall|j: int| 0 <= j < i ==> #[trigger] present@[j],
        decreases REQUIRED_COUNT - i,
    {
        if !present[i] {
            assert(first_missing(present@, i as int));
            return Err(VerifierError::IncompleteToolchain { missing_file: paths[i].clone() });
        }
        i = i + 1;
    }
    Ok(ToolchainPaths::at(root))
}

} // verus!
