//! The launcher.
//!
//! Running a bundle extracts the payload under a scratch root and starts
//! the target through a dynamic loader found among the extracted libraries.
//! The planner here decides everything about that invocation from plain
//! values — which entry of `libs/` is the loader, the exact argument list,
//! the working directory, and the search-path variable for the child — and
//! maps the child's outcome to the library's error kinds.  Spawning the
//! child and removing the scratch tree are left to the unverified shell.

use vstd::prelude::*;
use vstd::string::StringExecFns;

use crate::BundleError;
use crate::paths::{path_join, spec_is_prefix, spec_join, str_has_prefix, with_suffix};

verus! {

/// True when `n` is a recognized dynamic-loader name: one that begins with
/// a glibc-style or musl-style loader prefix.
pub open spec fn is_loader_name(n: Seq<char>) -> bool {
    spec_is_prefix("ld-linux"@, n) || spec_is_prefix("ld-musl"@, n)
}

/// Index of the first recognized loader name in `entries` at or after `i`.
pub open spec fn first_loader_from(entries: Seq<String>, i: int) -> Option<int>
    recommends
        0 <= i <= entries.len(),
    decreases entries.len() - i,
{
    if i < 0 || i >= entries.len() {
        None
    } else if is_loader_name(entries[i]@) {
        Some(i)
    } else {
        first_loader_from(entries, i + 1)
    }
}

/// There is no first loader exactly when no entry is a loader name.
pub proof fn lemma_loader_absence(entries: Seq<String>, i: int)
    requires
        0 <= i <= entries.len(),
    ensures
        first_loader_from(entries, i) is None <==> (forall|j: int|
            i <= j < entries.len() ==> !is_loader_name(entries[j]@)),
        first_loader_from(entries, i) matches Some(k) ==> i <= k < entries.len()
            && is_loader_name(entries[k]@) && (forall|j: int|
            i <= j < k ==> !is_loader_name(entries[j]@)),
    decreases entries.len() - i,
{
    if i < entries.len() {
        lemma_loader_absence(entries, i + 1);
    }
}

/// True exactly when `name` begins with a recognized loader prefix.
pub fn is_loader_entry(name: &String) -> (b: bool)
    ensures
        b == is_loader_name(name@),
{
    str_has_prefix(name.as_str(), "ld-linux") || str_has_prefix(name.as_str(), "ld-musl")
}

/// Finds the first entry whose name is a recognized loader name.
pub fn find_loader(entries: &Vec<String>) -> (r: Option<usize>)
    ensures
        match r {
            Some(i) => first_loader_from(entries@, 0) == Some(i as int),
            None => first_loader_from(entries@, 0) is None,
        },
{
    let mut i: usize = 0;
    while i < entries.len()
        invariant
            i <= entries@.len(),
            first_loader_from(entries@, 0) == first_loader_from(entries@, i as int),
        decreases entries@.len() - i,
    {
        if is_loader_entry(&entries[i]) {
            return Some(i);
        }
        i = i + 1;
    }
    None
}

/// Everything the shell needs to start the bundled target: the loader to
/// invoke, its full argument list, the working directory, and the value to
/// give the search-path variable, if any.
pub struct LaunchPlan {
    /// Path of the dynamic loader inside the extracted `libs/` directory.
    pub loader: String,
    /// `--library-path <libs> <target> ...forwarded arguments`.
    pub args: Vec<String>,
    /// The extraction root's bundle directory.
    pub working_dir: String,
    /// New search-path value when the tree has a `bins/` directory:
    /// that directory prepended to the current value.
    pub path_prepend: Option<String>,
}

/// Plans the child invocation for a bundle whose trailer names `name`.
///
/// `temp_dir` is the scratch root the payload was extracted under,
/// `lib_entries` the file names inside the extracted `libs/` directory,
/// `bins_exists` whether the tree has a `bins/` directory, `current_path`
/// the current search-path value, and `user_args` the forwarded arguments.
/// Fails with `LoaderNotFound`, before anything is spawned, exactly when no
/// entry of `libs/` carries a recognized loader name.
pub fn plan_launch(
    name: &String,
    temp_dir: &String,
    lib_entries: &Vec<String>,
    bins_exists: bool,
    current_path: &String,
    user_args: &Vec<String>,
) -> (r: Result<LaunchPlan, BundleError>)
    ensures
        r is Err <==> first_loader_from(lib_entries@, 0) is None,
        r matches Err(e) ==> e == BundleError::LoaderNotFound,
        r matches Ok(p) ==> ({
            let bundle_v = spec_join(temp_dir@, name@ + "_bundle"@);
            let libs_v = spec_join(bundle_v, "libs"@);
            let bins_v = spec_join(bundle_v, "bins"@);
            &&& (first_loader_from(lib_entries@, 0) matches Some(i) && p.loader@ == spec_join(
                libs_v,
                lib_entries@[i]@,
            ))
            &&& p.working_dir@ == bundle_v
            &&& p.args@.len() == 3 + user_args@.len()
            &&& p.args@[0]@ == "--library-path"@
            &&& p.args@[1]@ == libs_v
            &&& p.args@[2]@ == spec_join(bundle_v, name@)
            &&& (forall|k: int|
                0 <= k < user_args@.len() ==> p.args@[3 + k]@ == user_args@[k]@)
            &&& (bins_exists ==> (p.path_prepend matches Some(pp) && pp@ == bins_v + ":"@
                + current_path@))
            &&& (!bins_exists ==> p.path_prepend is None)
        }),
{
    let bundle_name = with_suffix(name.as_str(), "_bundle");
    let bundle_dir = path_join(temp_dir.as_str(), bundle_name.as_str());
    let libs_dir = path_join(bundle_dir.as_str(), "libs");
    let bins_dir = path_join(bundle_dir.as_str(), "bins");
    let loader_idx = match find_loader(lib_entries) {
        None => {
            return Err(BundleError::LoaderNotFound);
        },
        Some(i) => i,
    };
    proof {
        lemma_loader_absence(lib_entries@, 0);
    }
    let loader = path_join(libs_dir.as_str(), lib_entries[loader_idx].as_str());
    let target_path = path_join(bundle_dir.as_str(), name.as_str());

    let mut args: Vec<String> = Vec::new();
    args.push(String::from_str("--library-path"));
    args.push(libs_dir.clone());
    args.push(target_path);
    let mut k: usize = 0;
    while k < user_args.len()
        invariant
            k <= user_args@.len(),
            args@.len() == 3 + k,
            args@[0]@ == "--library-path"@,
            args@[1]@ == spec_join(spec_join(temp_dir@, name@ + "_bundle"@), "libs"@),
            args@[2]@ == spec_join(spec_join(temp_dir@, name@ + "_bundle"@), name@),
            forall|j: int| 0 <= j < k ==> args@[3 + j]@ == user_args@[j]@,
        decreases user_args@.len() - k,
    {
        args.push(user_args[k].clone());
        k = k + 1;
    }

    let path_prepend = if bins_exists {
        let mut pp = bins_dir;
        pp.append(":");
        pp.append(current_path.as_str());
        Some(pp)
    } else {
        None
    };
    Ok(LaunchPlan { loader, args, working_dir: bundle_dir, path_prepend })
}

/// How the spawned child ended: it ran and exited (successfully or not), or
/// it could not be started at all, with the operating system's description
/// of why.
#[derive(Debug, PartialEq, Eq)]
pub enum ChildOutcome {
    Exited { success: bool },
    NotStarted { cause: String },
}

/// Maps the child's outcome to the overall result: success passes through,
/// a nonzero exit becomes `ChildNonZeroExit`, a spawn failure becomes
/// `SpawnFailed` carrying the underlying cause.
pub fn map_child_outcome(outcome: &ChildOutcome) -> (r: Result<(), BundleError>)
    ensures
        r is Ok <==> *outcome == (ChildOutcome::Exited { success: true }),
        *outcome == (ChildOutcome::Exited { success: false }) ==> r == Err::<(), BundleError>(
            BundleError::ChildNonZeroExit,
        ),
        *outcome matches ChildOutcome::NotStarted { cause } ==> r == Err::<(), BundleError>(
            BundleError::SpawnFailed { cause },
        ),
{
    match outcome {
        ChildOutcome::Exited { success: true } => Ok(()),
        ChildOutcome::Exited { success: false } => Err(BundleError::ChildNonZeroExit),
        ChildOutcome::NotStarted { cause } => Err(
            BundleError::SpawnFailed { cause: cause.clone() },
        ),
    }
}

} // verus!
