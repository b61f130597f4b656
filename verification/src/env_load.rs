//! Lookup of the `.env` file that holds the API credentials.

use vstd::prelude::*;

verus! {

/// The places where the configuration file is looked for, in order of
/// preference: the working directory first, then the two locations kept for
/// running beside the former dashboard backend.
pub open spec fn env_candidates() -> Seq<Seq<char>> {
    seq![".env"@, "../backend/.env"@, "backend/.env"@]
}

/// `is_present` was asked about a path with this text and answered `answer`.
pub open spec fn answered<F: Fn(&str) -> bool>(is_present: F, path: Seq<char>, answer: bool) -> bool {
    exists|q: &str| q@ == path && call_ensures(is_present, (q,), answer)
}

fn candidate_list() -> (v: Vec<&'static str>)
    ensures
        v@.len() == env_candidates().len(),
        forall|i: int| 0 <= i < v@.len() ==> #[trigger] v@[i]@ == env_candidates()[i],
{
    vec![".env", "../backend/.env", "backend/.env"]
}

/// Returns the first candidate path, in order of preference, for which
/// `is_present` answers `true`, or `None` when it answers `false` for all of them.
pub fn resolve_env_path_from<F>(is_present: F) -> (r: Option<&'static str>) where F: Fn(&str) -> bool
    requires
        forall|p: &str| call_requires(is_present, (p,)),
    ensures
        match r {
            Some(path) => exists|i: int|
                0 <= i < env_candidates().len() && path@ == #[trigger] env_candidates()[i]
                    && call_ensures(is_present, (path,), true) && forall|j: int|
                    0 <= j < i ==> answered(is_present, #[trigger] env_candidates()[j], false),
            None => forall|j: int|
                0 <= j < env_candidates().len() ==> answered(
                    is_present,
                    #[trigger] env_candidates()[j],
                    false,
                ),
        },
{
    let candidates = candidate_list();
    let n = candidates.len();
    let mut i: usize = 0;
    while i < n
        invariant
            n == candidates@.len(),
            n == env_candidates().len(),
            i <= n,
            forall|k: int| 0 <= k < n ==> #[trigger] candidates@[k]@ == env_candidates()[k],
            forall|p: &str| call_requires(is_present, (p,)),
            forall|j: int| 0 <= j < i ==> answered(is_present, #[trigger] env_candidates()[j], false),
        decreases n - i,
    {
        let path = candidates[i];
        let found = is_present(path);
        if found {
            return Some(path);
        }
        assert(answered(is_present, env_candidates()[i as int], false)) by {
            assert(candidates@[i as int]@ == env_candidates()[i as int]);
        }
        i = i + 1;
    }
    None
}


/// `std::path::Path::exists` on `path`: whether something is found there
/// on disk. Nothing is claimed of the answer, which depends on the disk.
#[verifier::external_body]
pub fn path_exists(path: &str) -> bool {
    std::path::Path::new(path).exists()
}

/// Looks the candidates up on disk with `path_exists`, in order of
/// preference, and returns the first one found, if any.
pub fn resolve_env_path() -> (r: Option<&'static str>)
    ensures
        match r {
            Some(path) => exists|i: int|
                0 <= i < env_candidates().len() && path@ == #[trigger] env_candidates()[i]
                    && call_ensures(path_exists, (path,), true) && forall|j: int|
                    0 <= j < i ==> answered(path_exists, #[trigger] env_candidates()[j], false),
            None => forall|j: int|
                0 <= j < env_candidates().len() ==> answered(
                    path_exists,
                    #[trigger] env_candidates()[j],
                    false,
                ),
        },
{
    resolve_env_path_from(path_exists)
}

} // verus!
