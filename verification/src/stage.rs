//! The dependency stager.
//!
//! Generation assembles a staging tree that mirrors the bundle layout: the
//! target binary at the root, extra executables under `bins/`, the shared
//! library closures under `libs/`, and extra files or directories at the
//! top level.  The planner here turns the target's classification, the
//! resolved dependency closures, and the extra entries into the exact
//! sequence of file operations that produces that tree; an unverified shell
//! executes the operations.  The plan always begins by recreating the
//! staging root, so a prior tree at the same path never leaks into the new
//! one.

use vstd::prelude::*;

use crate::BundleError;
use crate::paths::{
    base_name, path_join, resolve_path, spec_base_name, spec_join, spec_resolve, with_suffix,
};

verus! {

/// How the dependency resolver classified an executable.
#[derive(Clone, Copy, Debug, PartialEq, Eq, Structural)]
pub enum ElfKind {
    /// A dynamically linked executable: the one kind that can be bundled.
    Shared,
    /// A statically linked executable: nothing to bundle.
    Static,
    /// Not a recognized executable.
    Invalid,
}

/// One entry of a dependency closure: an absolute library path, and whether
/// the file still exists on disk.  Entries that no longer exist are dropped.
pub struct DepEntry {
    pub path: String,
    pub exists: bool,
}

/// What the resolver reported about the target binary.
pub struct TargetFacts {
    /// Path of the target binary as given.
    pub path: String,
    /// The target's file name; it names the staging root and the bundle.
    pub name: String,
    /// The resolver's classification.
    pub kind: ElfKind,
    /// The target's dependency closure.
    pub deps: Vec<DepEntry>,
}

/// One extra executable to place under `bins/`, with its own dependency
/// closure (directories given on the command line are expanded to their
/// regular files before planning).
pub struct ExtraBin {
    pub path: String,
    pub deps: Vec<DepEntry>,
}

/// One extra path to place at the top of the tree: a file is copied in, a
/// directory is recreated clean and its contents copied.
pub struct ExtraFile {
    pub path: String,
    pub is_dir: bool,
}

/// What a generation run was asked to do.
#[derive(Debug)]
pub struct BundleArgs {
    pub target_binary: String,
    pub compression_level: i32,
    pub extra_libs: Vec<String>,
    pub additional_files: Vec<String>,
    pub extra_bins: Vec<String>,
}

impl BundleArgs {
    /// Generation without a target binary is a hard error.
    pub fn validate(&self) -> (r: Result<(), BundleError>)
        ensures
            r is Ok <==> self.target_binary@.len() > 0,
            r matches Err(e) ==> e == BundleError::MissingRequiredArgument,
    {
        if self.target_binary.as_str().is_empty() {
            Err(BundleError::MissingRequiredArgument)
        } else {
            Ok(())
        }
    }
}

/// One file operation of a staging plan.  Copy failures are fatal only
/// where `required` holds (the target binary itself); every other copy is
/// best-effort: a failure is logged and the item skipped.
#[derive(Debug, PartialEq, Eq)]
pub enum FileOp {
    /// Remove the directory if it exists, then create it: a clean slate.
    RecreateDir { path: String },
    /// Create the directory and any missing parents.
    CreateDir { path: String },
    /// Copy one regular file.
    CopyFile { src: String, dest: String, required: bool },
    /// Copy recursively into `dest`, through the recursive copier.
    CopyTree { src: String, dest: String, content_only: bool, follow_symlinks: bool },
}

/// The mathematical shape of a file operation, over character sequences.
#[verifier::ext_equal]
pub enum SpecOp {
    RecreateDir { path: Seq<char> },
    CreateDir { path: Seq<char> },
    CopyFile { src: Seq<char>, dest: Seq<char>, required: bool },
    CopyTree { src: Seq<char>, dest: Seq<char>, content_only: bool, follow_symlinks: bool },
}

impl View for FileOp {
    type V = SpecOp;

    open spec fn view(&self) -> SpecOp {
        match self {
            FileOp::RecreateDir { path } => SpecOp::RecreateDir { path: path@ },
            FileOp::CreateDir { path } => SpecOp::CreateDir { path: path@ },
            FileOp::CopyFile { src, dest, required } => SpecOp::CopyFile {
                src: src@,
                dest: dest@,
                required: *required,
            },
            FileOp::CopyTree { src, dest, content_only, follow_symlinks } => SpecOp::CopyTree {
                src: src@,
                dest: dest@,
                content_only: *content_only,
                follow_symlinks: *follow_symlinks,
            },
        }
    }
}

/// The shapes of a sequence of file operations.
pub open spec fn ops_view(s: Seq<FileOp>) -> Seq<SpecOp> {
    s.map_values(|op: FileOp| op@)
}

/// The copies that bring a dependency closure into `libs_dir`: one
/// recursive, symlink-following copy per entry that still exists, in order.
pub open spec fn spec_dep_ops(deps: Seq<DepEntry>, libs_dir: Seq<char>) -> Seq<SpecOp>
    decreases deps.len(),
{
    if deps.len() == 0 {
        Seq::empty()
    } else {
        let rest = spec_dep_ops(deps.drop_last(), libs_dir);
        let d = deps.last();
        if d.exists {
            rest.push(
                SpecOp::CopyTree {
                    src: d.path@,
                    dest: libs_dir,
                    content_only: true,
                    follow_symlinks: true,
                },
            )
        } else {
            rest
        }
    }
}

/// The copies for the extra executables: each lands in `bins_dir` under its
/// base name, followed by its dependency closure going to `libs_dir`.
pub open spec fn spec_bin_ops(bins: Seq<ExtraBin>, bins_dir: Seq<char>, libs_dir: Seq<char>) -> Seq<
    SpecOp,
>
    decreases bins.len(),
{
    if bins.len() == 0 {
        Seq::empty()
    } else {
        let b = bins.last();
        spec_bin_ops(bins.drop_last(), bins_dir, libs_dir) + seq![
            SpecOp::CopyFile {
                src: b.path@,
                dest: spec_join(bins_dir, spec_base_name(b.path@)),
                required: false,
            },
        ] + spec_dep_ops(b.deps@, libs_dir)
    }
}

/// The copies for the extra libraries: each goes to `libs_dir` as given,
/// without following symbolic links.
pub open spec fn spec_extra_lib_ops(libs: Seq<String>, libs_dir: Seq<char>) -> Seq<SpecOp>
    decreases libs.len(),
{
    if libs.len() == 0 {
        Seq::empty()
    } else {
        spec_extra_lib_ops(libs.drop_last(), libs_dir).push(
            SpecOp::CopyTree {
                src: libs.last()@,
                dest: libs_dir,
                content_only: true,
                follow_symlinks: false,
            },
        )
    }
}

/// The copies for the extra files: each path is resolved against the
/// working directory; a directory is recreated clean at the tree's top
/// level under its base name and copied in, a file is copied to the top
/// level.
pub open spec fn spec_extra_file_ops(extras: Seq<ExtraFile>, cwd: Seq<char>, root: Seq<char>) -> Seq<
    SpecOp,
>
    decreases extras.len(),
{
    if extras.len() == 0 {
        Seq::empty()
    } else {
        let rest = spec_extra_file_ops(extras.drop_last(), cwd, root);
        let e = extras.last();
        let resolved = spec_resolve(cwd, e.path@);
        let dest = spec_join(root, spec_base_name(resolved));
        if e.is_dir {
            rest + seq![
                SpecOp::RecreateDir { path: dest },
                SpecOp::CopyTree {
                    src: resolved,
                    dest: dest,
                    content_only: true,
                    follow_symlinks: false,
                },
            ]
        } else {
            rest.push(SpecOp::CopyFile { src: resolved, dest: dest, required: false })
        }
    }
}

/// The whole staging plan: recreate the root, make `bins/` and `libs/`,
/// copy the target in under its name, then the extra executables with
/// their closures, the target's own closure, the extra libraries, and the
/// extra files.
pub open spec fn spec_staging_plan(
    temp_dir: Seq<char>,
    cwd: Seq<char>,
    target: TargetFacts,
    bins: Seq<ExtraBin>,
    libs: Seq<String>,
    extras: Seq<ExtraFile>,
) -> Seq<SpecOp> {
    let root = spec_join(temp_dir, target.name@ + "_bundle"@);
    let bins_dir = spec_join(root, "bins"@);
    let libs_dir = spec_join(root, "libs"@);
    seq![
        SpecOp::RecreateDir { path: root },
        SpecOp::CreateDir { path: bins_dir },
        SpecOp::CreateDir { path: libs_dir },
        SpecOp::CopyFile { src: target.path@, dest: spec_join(root, target.name@), required: true },
    ] + spec_bin_ops(bins, bins_dir, libs_dir) + spec_dep_ops(target.deps@, libs_dir)
        + spec_extra_lib_ops(libs, libs_dir) + spec_extra_file_ops(extras, cwd, root)
}

/// Appends the copy operations for one dependency closure.
fn push_dep_ops(ops: &mut Vec<FileOp>, deps: &Vec<DepEntry>, libs_dir: &String)
    ensures
        ops_view(final(ops)@) == ops_view(old(ops)@) + spec_dep_ops(deps@, libs_dir@),
{
    let mut di: usize = 0;
    while di < deps.len()
        invariant
            di <= deps@.len(),
            ops_view(ops@) == ops_view(old(ops)@) + spec_dep_ops(deps@.take(di as int), libs_dir@),
        decreases deps@.len() - di,
    {
        let ghost before = ops_view(ops@);
        let d = &deps[di];
        if d.exists {
            ops.push(
                FileOp::CopyTree {
                    src: d.path.clone(),
                    dest: libs_dir.clone(),
                    content_only: true,
                    follow_symlinks: true,
                },
            );
        }
        di = di + 1;
        proof {
            assert(deps@.take(di as int).drop_last() =~= deps@.take(di as int - 1));
            assert(deps@.take(di as int).last() == deps@[di as int - 1]);
            if deps@[di as int - 1].exists {
                assert(ops_view(ops@) =~= before.push(
                    SpecOp::CopyTree {
                        src: deps@[di as int - 1].path@,
                        dest: libs_dir@,
                        content_only: true,
                        follow_symlinks: true,
                    },
                ));
            }
            assert(ops_view(ops@) =~= ops_view(old(ops)@) + spec_dep_ops(
                deps@.take(di as int),
                libs_dir@,
            ));
        }
    }
    proof {
        assert(deps@.take(deps@.len() as int) =~= deps@);
    }
}

/// Builds the staging plan for one generation run.
///
/// Fails with `NotASharedExecutable` exactly when the resolver did not
/// classify the target as a dynamically linked executable; otherwise the
/// returned operations are exactly [`spec_staging_plan`] over the inputs.
pub fn plan_staging(
    temp_dir: &String,
    cwd: &String,
    target: &TargetFacts,
    extra_bins: &Vec<ExtraBin>,
    extra_libs: &Vec<String>,
    extra_files: &Vec<ExtraFile>,
) -> (r: Result<Vec<FileOp>, BundleError>)
    ensures
        r is Ok <==> target.kind is Shared,
        r matches Err(e) ==> e == BundleError::NotASharedExecutable,
        r matches Ok(ops) ==> ops_view(ops@) == spec_staging_plan(
            temp_dir@,
            cwd@,
            *target,
            extra_bins@,
            extra_libs@,
            extra_files@,
        ),
{
    match target.kind {
        ElfKind::Shared => {},
        _ => {
            return Err(BundleError::NotASharedExecutable);
        },
    }
    let bundle_name = with_suffix(target.name.as_str(), "_bundle");
    let root = path_join(temp_dir.as_str(), bundle_name.as_str());
    let bins_dir = path_join(root.as_str(), "bins");
    let libs_dir = path_join(root.as_str(), "libs");
    let ghost root_v = spec_join(temp_dir@, target.name@ + "_bundle"@);
    let ghost bins_v = spec_join(root_v, "bins"@);
    let ghost libs_v = spec_join(root_v, "libs"@);

    let mut ops: Vec<FileOp> = Vec::new();
    ops.push(FileOp::RecreateDir { path: root.clone() });
    ops.push(FileOp::CreateDir { path: bins_dir.clone() });
    ops.push(FileOp::CreateDir { path: libs_dir.clone() });
    let target_dest = path_join(root.as_str(), target.name.as_str());
    ops.push(FileOp::CopyFile { src: target.path.clone(), dest: target_dest, required: true });
    let ghost head = seq![
        SpecOp::RecreateDir { path: root_v },
        SpecOp::CreateDir { path: bins_v },
        SpecOp::CreateDir { path: libs_v },
        SpecOp::CopyFile {
            src: target.path@,
            dest: spec_join(root_v, target.name@),
            required: true,
        },
    ];
    proof {
        assert(ops_view(ops@) =~= head);
    }

    let mut bi: usize = 0;
    while bi < extra_bins.len()
        invariant
            bi <= extra_bins@.len(),
            bins_dir@ == bins_v,
            libs_dir@ == libs_v,
            ops_view(ops@) == head + spec_bin_ops(extra_bins@.take(bi as int), bins_v, libs_v),
        decreases extra_bins@.len() - bi,
    {
        let ghost before = ops_view(ops@);
        let b = &extra_bins[bi];
        let bn = base_name(b.path.as_str());
        let dest = path_join(bins_dir.as_str(), bn.as_str());
        ops.push(FileOp::CopyFile { src: b.path.clone(), dest, required: false });
        proof {
            assert(ops_view(ops@) =~= before.push(
                SpecOp::CopyFile {
                    src: b.path@,
                    dest: spec_join(bins_v, spec_base_name(b.path@)),
                    required: false,
                },
            ));
        }
        push_dep_ops(&mut ops, &b.deps, &libs_dir);
        bi = bi + 1;
        proof {
            assert(extra_bins@.take(bi as int).drop_last() =~= extra_bins@.take(bi as int - 1));
            assert(extra_bins@.take(bi as int).last() == extra_bins@[bi as int - 1]);
            assert(ops_view(ops@) =~= head + spec_bin_ops(
                extra_bins@.take(bi as int),
                bins_v,
                libs_v,
            ));
        }
    }
    proof {
        assert(extra_bins@.take(extra_bins@.len() as int) =~= extra_bins@);
    }

    push_dep_ops(&mut ops, &target.deps, &libs_dir);
    let ghost mid = head + spec_bin_ops(extra_bins@, bins_v, libs_v) + spec_dep_ops(
        target.deps@,
        libs_v,
    );
    proof {
        assert(ops_view(ops@) =~= mid);
    }

    let mut li: usize = 0;
    while li < extra_libs.len()
        invariant
            li <= extra_libs@.len(),
            libs_dir@ == libs_v,
            ops_view(ops@) == mid + spec_extra_lib_ops(extra_libs@.take(li as int), libs_v),
        decreases extra_libs@.len() - li,
    {
        let ghost before = ops_view(ops@);
        let l = &extra_libs[li];
        ops.push(
            FileOp::CopyTree {
                src: l.clone(),
                dest: libs_dir.clone(),
                content_only: true,
                follow_symlinks: false,
            },
        );
        li = li + 1;
        proof {
            assert(extra_libs@.take(li as int).drop_last() =~= extra_libs@.take(li as int - 1));
            assert(extra_libs@.take(li as int).last() == extra_libs@[li as int - 1]);
            assert(ops_view(ops@) =~= before.push(
                SpecOp::CopyTree {
                    src: extra_libs@[li as int - 1]@,
                    dest: libs_v,
                    content_only: true,
                    follow_symlinks: false,
                },
            ));
            assert(ops_view(ops@) =~= mid + spec_extra_lib_ops(
                extra_libs@.take(li as int),
                libs_v,
            ));
        }
    }
    proof {
        assert(extra_libs@.take(extra_libs@.len() as int) =~= extra_libs@);
    }
    let ghost mid2 = mid + spec_extra_lib_ops(extra_libs@, libs_v);

    let mut ei: usize = 0;
    while ei < extra_files.len()
        invariant
            ei <= extra_files@.len(),
            root@ == root_v,
            ops_view(ops@) == mid2 + spec_extra_file_ops(
                extra_files@.take(ei as int),
                cwd@,
                root_v,
            ),
        decreases extra_files@.len() - ei,
    {
        let ghost before = ops_view(ops@);
        let e = &extra_files[ei];
        let ghost resolved_v = spec_resolve(cwd@, e.path@);
        let ghost dest_v = spec_join(root_v, spec_base_name(resolved_v));
        let resolved = resolve_path(cwd.as_str(), e.path.as_str());
        let bn = base_name(resolved.as_str());
        let dest = path_join(root.as_str(), bn.as_str());
        if e.is_dir {
            ops.push(FileOp::RecreateDir { path: dest.clone() });
            ops.push(
                FileOp::CopyTree {
                    src: resolved,
                    dest,
                    content_only: true,
                    follow_symlinks: false,
                },
            );
            proof {
                assert(ops_view(ops@) =~= before + seq![
                    SpecOp::RecreateDir { path: dest_v },
                    SpecOp::CopyTree {
                        src: resolved_v,
                        dest: dest_v,
                        content_only: true,
                        follow_symlinks: false,
                    },
                ]);
            }
        } else {
            ops.push(FileOp::CopyFile { src: resolved, dest, required: false });
            proof {
                assert(ops_view(ops@) =~= before.push(
                    SpecOp::CopyFile { src: resolved_v, dest: dest_v, required: false },
                ));
            }
        }
        ei = ei + 1;
        proof {
            assert(extra_files@.take(ei as int).drop_last() =~= extra_files@.take(ei as int - 1));
            assert(extra_files@.take(ei as int).last() == extra_files@[ei as int - 1]);
            assert(ops_view(ops@) =~= mid2 + spec_extra_file_ops(
                extra_files@.take(ei as int),
                cwd@,
                root_v,
            ));
        }
    }
    proof {
        assert(extra_files@.take(extra_files@.len() as int) =~= extra_files@);
        assert(ops_view(ops@) =~= spec_staging_plan(
            temp_dir@,
            cwd@,
            *target,
            extra_bins@,
            extra_libs@,
            extra_files@,
        ));
    }
    Ok(ops)
}

/// The name of the bundle file that generation writes for a target.
pub fn output_name(target_name: &str) -> (r: String)
    ensures
        r@ == target_name@ + ".Rex"@,
{
    with_suffix(target_name, ".Rex")
}

/// Staging is deterministic: two plans built from the same inputs are the
/// same sequence of operations, so regenerating over the same path writes
/// the same tree.
pub proof fn lemma_staging_deterministic(
    ops1: Seq<FileOp>,
    ops2: Seq<FileOp>,
    temp_dir: Seq<char>,
    cwd: Seq<char>,
    target: TargetFacts,
    bins: Seq<ExtraBin>,
    libs: Seq<String>,
    extras: Seq<ExtraFile>,
)
    requires
        ops_view(ops1) == spec_staging_plan(temp_dir, cwd, target, bins, libs, extras),
        ops_view(ops2) == spec_staging_plan(temp_dir, cwd, target, bins, libs, extras),
    ensures
        ops_view(ops1) == ops_view(ops2),
{
}

/// Every staging plan begins by recreating the staging root, so nothing of
/// a previous tree at the same path survives into the new one.
pub proof fn lemma_staging_clean_slate(
    temp_dir: Seq<char>,
    cwd: Seq<char>,
    target: TargetFacts,
    bins: Seq<ExtraBin>,
    libs: Seq<String>,
    extras: Seq<ExtraFile>,
)
    ensures
        spec_staging_plan(temp_dir, cwd, target, bins, libs, extras).len() >= 4,
        spec_staging_plan(temp_dir, cwd, target, bins, libs, extras)[0]
            == (SpecOp::RecreateDir { path: spec_join(temp_dir, target.name@ + "_bundle"@) }),
{
}

} // verus!
