//! Where the helper executable is looked for, and in which order.

use crate::error::OverlayError;
use vstd::prelude::*;

verus! {

/// The environment variable that names the helper executable outright.
pub const HELPER_PATH_VARIABLE: &'static str = "OUTLINE_HELPER_PATH";

/// The helper's location below the working directory.
pub const HELPER_BELOW_WORKING_DIR: &'static str = "macos/OutlineHelper/OutlineHelper";

/// The helper's location below the install root.
pub const HELPER_BELOW_INSTALL_ROOT: &'static str = "src-tauri/macos/OutlineHelper/OutlineHelper";

/// How many directories the install root lies above the running executable.
pub const INSTALL_ROOT_LEVELS_ABOVE_EXECUTABLE: usize = 3;

/// A candidate path together with what a look at the file system showed.
#[derive(Clone, Debug, PartialEq, Eq)]
pub struct ProbedPath {
    pub path: String,
    pub exists: bool,
}

/// `i` is the first candidate that exists.
pub open spec fn is_first_existing(candidates: Seq<ProbedPath>, i: int) -> bool {
    &&& 0 <= i < candidates.len()
    &&& candidates[i].exists
    &&& forall|j: int| 0 <= j < i ==> !(#[trigger] candidates[j]).exists
}

/// No candidate exists.
pub open spec fn none_exists(candidates: Seq<ProbedPath>) -> bool {
    forall|j: int| 0 <= j < candidates.len() ==> !(#[trigger] candidates[j]).exists
}

/// Finds the first candidate that exists, in the order given.
pub fn first_existing(candidates: &Vec<ProbedPath>) -> (found: Option<usize>)
    ensures
        (match found {
            Some(i) => is_first_existing(candidates@, i as int),
            None => none_exists(candidates@),
        }),
{
    let mut i: usize = 0;
    while i < candidates.len()
        invariant
            i <= candidates.len(),
            forall|j: int| 0 <= j < i ==> !(#[trigger] candidates@[j]).exists,
        decreases candidates.len() - i,
    {
        if candidates[i].exists {
            return Some(i);
        }
        i = i + 1;
    }
    None
}

/// The path of a location that could be formed and exists.
pub open spec fn usable(location: Option<ProbedPath>) -> Option<String> {
    match location {
        Some(probed) => if probed.exists {
            Some(probed.path)
        } else {
            None
        },
        None => None,
    }
}

/// The first of three locations, in the order given, that could be formed
/// and exists.
pub open spec fn first_usable(
    first: Option<ProbedPath>,
    second: Option<ProbedPath>,
    third: Option<ProbedPath>,
) -> Option<String> {
    if usable(first) is Some {
        usable(first)
    } else if usable(second) is Some {
        usable(second)
    } else {
        usable(third)
    }
}

/// Picks the first of three locations that exists: those that could be
/// formed are lined up in their order and the first existing one wins.
pub fn pick_first_usable(
    first: Option<ProbedPath>,
    second: Option<ProbedPath>,
    third: Option<ProbedPath>,
) -> (picked: Option<String>)
    ensures
        picked == first_usable(first, second, third),
{
    let mut candidates: Vec<ProbedPath> = Vec::new();
    match first {
        Some(probed) => {
            candidates.push(probed);
        },
        None => {},
    }
    let ghost after_first = candidates@;
    match second {
        Some(probed) => {
            candidates.push(probed);
        },
        None => {},
    }
    let ghost after_second = candidates@;
    match third {
        Some(probed) => {
            candidates.push(probed);
        },
        None => {},
    }
    proof {
        // Each location that could be formed is among the candidates, and
        // they stand in the order of preference.
        if first is Some {
            assert(candidates@[0] == first->0);
        }
        if second is Some {
            assert(candidates@[after_first.len() as int] == second->0);
        }
        if third is Some {
            assert(candidates@[after_second.len() as int] == third->0);
        }
    }
    match first_existing(&candidates) {
        Some(i) => Some(candidates[i].path.clone()),
        None => None,
    }
}

/// Everything the search for the helper goes by: the explicit override, if
/// one is configured, and the two conventional locations as far as they
/// could be formed, each with what a look at the file system showed.
#[derive(Clone, Debug, PartialEq, Eq)]
pub struct HelperSearch {
    /// The override from the configuration. It is the first candidate, and
    /// like the others it counts only if it exists.
    pub explicit: Option<ProbedPath>,
    /// The location below the working directory.
    pub working_dir: Option<ProbedPath>,
    /// The location below the install root.
    pub install_root: Option<ProbedPath>,
}

impl HelperSearch {
    /// The path that the search settles on, the first that exists of: the
    /// override, the working-directory location, the install-root
    /// location.
    pub open spec fn chosen(&self) -> Option<String> {
        first_usable(self.explicit, self.working_dir, self.install_root)
    }

    /// Resolves the helper executable, or reports that there is none.
    pub fn resolve(self) -> (resolved: Result<String, OverlayError>)
        ensures
            (match resolved {
                Ok(path) => self.chosen() == Some(path),
                Err(failure) => self.chosen() is None && failure == OverlayError::HelperNotFound,
            }),
    {
        match pick_first_usable(self.explicit, self.working_dir, self.install_root) {
            Some(path) => Ok(path),
            None => Err(OverlayError::HelperNotFound),
        }
    }
}

/// The order of resolution. An override that exists is chosen, whatever
/// else exists. Otherwise the location below the working directory is
/// preferred over the one below the install root, which is chosen only when
/// the first is missing. Where none of the three exists nothing is chosen:
/// an override that is set but missing does not stand in for a helper.
pub proof fn lemma_resolution_order(
    explicit: Option<ProbedPath>,
    working_dir: Option<ProbedPath>,
    install_root: Option<ProbedPath>,
)
    ensures
        ({
            let search = HelperSearch { explicit, working_dir, install_root };
            let has_explicit = explicit is Some && explicit->0.exists;
            let has_working_dir = working_dir is Some && working_dir->0.exists;
            let has_install_root = install_root is Some && install_root->0.exists;
            &&& has_explicit ==> search.chosen() == Some(explicit->0.path)
            &&& !has_explicit && has_working_dir ==> search.chosen() == Some(working_dir->0.path)
            &&& !has_explicit && !has_working_dir && has_install_root ==> search.chosen() == Some(
                install_root->0.path,
            )
            &&& !has_explicit && !has_working_dir && !has_install_root <==> search.chosen() is None
        }),
{
}

} // verus!
