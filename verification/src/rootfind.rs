//! Deterministic project-root discovery: the predicate a directory must
//! satisfy and the first-match selection over an environment override and an
//! ordered list of candidate starting points, each walked through its
//! ancestors.

use vstd::prelude::*;

verus! {

/// What root discovery reads of one directory: whether the package manifest
/// and the worker's entry source are present in it.
#[derive(Clone, Copy, PartialEq, Eq, Structural, Debug)]
pub struct DirProbe {
    pub has_package_manifest: bool,
    pub has_entry_source: bool,
}

/// The directory is the project root: it holds both the package manifest
/// and the worker's entry source.
pub open spec fn spec_is_project_root(d: DirProbe) -> bool {
    d.has_package_manifest && d.has_entry_source
}

/// Whether the directory satisfies the project-root predicate.
pub fn is_project_root(dir: &DirProbe) -> (r: bool)
    ensures
        r == spec_is_project_root(*dir),
{
    dir.has_package_manifest && dir.has_entry_source
}

/// The override directory exists and satisfies the project-root predicate.
pub open spec fn spec_env_override_hit(env_probe: Option<&DirProbe>) -> bool {
    env_probe matches Some(p) && spec_is_project_root(*p)
}

/// Some ancestor of the candidate satisfies the project-root predicate.
pub open spec fn spec_candidate_hit(ancestors: Seq<DirProbe>) -> bool {
    exists|j: int| 0 <= j < ancestors.len() && spec_is_project_root(ancestors[j])
}

/// Walk one candidate's ancestors — the candidate itself first, then each
/// parent outward — and return the index of the first project root, or
/// `None` when no ancestor qualifies.
pub fn find_root_from_candidate(ancestors: &Vec<DirProbe>) -> (r: Option<usize>)
    ensures
        match r {
            Some(i) => i < ancestors@.len() && spec_is_project_root(ancestors@[i as int]) && (forall|
                j: int,
            | 0 <= j < i ==> !spec_is_project_root(ancestors@[j])),
            None => !spec_candidate_hit(ancestors@),
        },
{
    let n = ancestors.len();
    let mut i: usize = 0;
    while i < n
        invariant
            0 <= i <= n,
            n == ancestors@.len(),
            forall|j: int| 0 <= j < i ==> !spec_is_project_root(ancestors@[j]),
        decreases n - i,
    {
        if is_project_root(&ancestors[i]) {
            return Some(i);
        }
        i = i + 1;
    }
    None
}

/// Where root discovery found the project root.
#[derive(Clone, Copy, PartialEq, Eq, Structural, Debug)]
pub enum RootChoice {
    /// The directory named by the override environment variable qualified.
    EnvOverride,
    /// The first qualifying ancestor of the first qualifying candidate.
    Candidate { index: usize, ancestor: usize },
}

/// Resolve the worker's working directory: the environment override wins
/// when it qualifies by itself (its ancestors are not walked); otherwise the
/// candidates are searched in order and the first ancestor hit of the first
/// candidate with a hit is taken; `None` when nothing qualifies.
pub fn project_root(env_probe: Option<&DirProbe>, candidates: &Vec<Vec<DirProbe>>) -> (r: Option<
    RootChoice,
>)
    ensures
        spec_env_override_hit(env_probe) ==> r == Some(RootChoice::EnvOverride),
        !spec_env_override_hit(env_probe) ==> match r {
            Some(RootChoice::Candidate { index, ancestor }) => {
                &&& index < candidates@.len()
                &&& ancestor < candidates@[index as int]@.len()
                &&& spec_is_project_root(candidates@[index as int]@[ancestor as int])
                &&& forall|j: int|
                    0 <= j < ancestor ==> !spec_is_project_root(candidates@[index as int]@[j])
                &&& forall|k: int| 0 <= k < index ==> !spec_candidate_hit(candidates@[k]@)
            },
            Some(RootChoice::EnvOverride) => false,
            None => forall|k: int| 0 <= k < candidates@.len() ==> !spec_candidate_hit(
                candidates@[k]@,
            ),
        },
{
    match env_probe {
        Some(p) => {
            if is_project_root(p) {
                return Some(RootChoice::EnvOverride);
            }
        },
        None => {},
    }
    let n = candidates.len();
    let mut k: usize = 0;
    while k < n
        invariant
            0 <= k <= n,
            n == candidates@.len(),
            !spec_env_override_hit(env_probe),
            forall|m: int| 0 <= m < k ==> !spec_candidate_hit(candidates@[m]@),
        decreases n - k,
    {
        match find_root_from_candidate(&candidates[k]) {
            Some(a) => {
                return Some(RootChoice::Candidate { index: k, ancestor: a });
            },
            None => {},
        }
        k = k + 1;
    }
    None
}

} // verus!
