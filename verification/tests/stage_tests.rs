use rex::paths::{base_name, path_join, resolve_path};
use rex::stage::{
    output_name, plan_staging, BundleArgs, DepEntry, ElfKind, ExtraBin, ExtraFile, FileOp,
    TargetFacts,
};
use rex::BundleError;

fn sample_target() -> TargetFacts {
    TargetFacts {
        path: String::from("/usr/bin/app"),
        name: String::from("app"),
        kind: ElfKind::Shared,
        deps: vec![
            DepEntry { path: String::from("/usr/lib/libc.so.6"), exists: true },
            DepEntry { path: String::from("/usr/lib/gone.so"), exists: false },
        ],
    }
}

#[test]
fn staging_plan_shape() {
    let temp = String::from("/tmp");
    let cwd = String::from("/work");
    let target = sample_target();
    let bins = vec![ExtraBin {
        path: String::from("/opt/tool"),
        deps: vec![DepEntry { path: String::from("/usr/lib/libz.so.1"), exists: true }],
    }];
    let libs = vec![String::from("/usr/lib/extra.so")];
    let files = vec![
        ExtraFile { path: String::from("notes.txt"), is_dir: false },
        ExtraFile { path: String::from("/data/assets"), is_dir: true },
    ];
    let ops = plan_staging(&temp, &cwd, &target, &bins, &libs, &files).unwrap();
    let expected = vec![
        FileOp::RecreateDir { path: String::from("/tmp/app_bundle") },
        FileOp::CreateDir { path: String::from("/tmp/app_bundle/bins") },
        FileOp::CreateDir { path: String::from("/tmp/app_bundle/libs") },
        FileOp::CopyFile {
            src: String::from("/usr/bin/app"),
            dest: String::from("/tmp/app_bundle/app"),
            required: true,
        },
        FileOp::CopyFile {
            src: String::from("/opt/tool"),
            dest: String::from("/tmp/app_bundle/bins/tool"),
            required: false,
        },
        FileOp::CopyTree {
            src: String::from("/usr/lib/libz.so.1"),
            dest: String::from("/tmp/app_bundle/libs"),
            content_only: true,
            follow_symlinks: true,
        },
        FileOp::CopyTree {
            src: String::from("/usr/lib/libc.so.6"),
            dest: String::from("/tmp/app_bundle/libs"),
            content_only: true,
            follow_symlinks: true,
        },
        FileOp::CopyTree {
            src: String::from("/usr/lib/extra.so"),
            dest: String::from("/tmp/app_bundle/libs"),
            content_only: true,
            follow_symlinks: false,
        },
        FileOp::CopyFile {
            src: String::from("/work/notes.txt"),
            dest: String::from("/tmp/app_bundle/notes.txt"),
            required: false,
        },
        FileOp::RecreateDir { path: String::from("/tmp/app_bundle/assets") },
        FileOp::CopyTree {
            src: String::from("/data/assets"),
            dest: String::from("/tmp/app_bundle/assets"),
            content_only: true,
            follow_symlinks: false,
        },
    ];
    assert_eq!(ops, expected);
}

#[test]
fn staging_is_deterministic() {
    let temp = String::from("/tmp");
    let cwd = String::from("/work");
    let target = sample_target();
    let bins: Vec<ExtraBin> = Vec::new();
    let libs: Vec<String> = Vec::new();
    let files = vec![ExtraFile { path: String::from("notes.txt"), is_dir: false }];
    let first = plan_staging(&temp, &cwd, &sample_target(), &bins, &libs, &files).unwrap();
    let second = plan_staging(&temp, &cwd, &target, &bins, &libs, &files).unwrap();
    assert_eq!(first, second);
    // every plan starts from a clean slate at the staging root
    assert_eq!(first[0], FileOp::RecreateDir { path: String::from("/tmp/app_bundle") });
}

#[test]
fn staging_rejects_static_target() {
    let temp = String::from("/tmp");
    let cwd = String::from("/work");
    let mut target = sample_target();
    target.kind = ElfKind::Static;
    let r = plan_staging(&temp, &cwd, &target, &Vec::new(), &Vec::new(), &Vec::new());
    assert!(matches!(r, Err(BundleError::NotASharedExecutable)));
}

#[test]
fn staging_rejects_invalid_target() {
    let temp = String::from("/tmp");
    let cwd = String::from("/work");
    let mut target = sample_target();
    target.kind = ElfKind::Invalid;
    let r = plan_staging(&temp, &cwd, &target, &Vec::new(), &Vec::new(), &Vec::new());
    assert!(matches!(r, Err(BundleError::NotASharedExecutable)));
}

#[test]
fn missing_target_is_rejected() {
    let args = BundleArgs {
        target_binary: String::new(),
        compression_level: 5,
        extra_libs: Vec::new(),
        additional_files: Vec::new(),
        extra_bins: Vec::new(),
    };
    assert!(matches!(args.validate(), Err(BundleError::MissingRequiredArgument)));
    let args = BundleArgs { target_binary: String::from("/usr/bin/app"), ..args };
    assert!(args.validate().is_ok());
}

#[test]
fn output_name_has_suffix() {
    assert_eq!(output_name("app"), "app.Rex");
}

#[test]
fn base_name_cases() {
    assert_eq!(base_name("/usr/lib/x.so"), "x.so");
    assert_eq!(base_name("plain"), "plain");
    assert_eq!(base_name("dir/"), "");
    assert_eq!(base_name(""), "");
}

#[test]
fn resolve_path_cases() {
    assert_eq!(resolve_path("/work", "notes.txt"), "/work/notes.txt");
    assert_eq!(resolve_path("/work", "/abs/notes.txt"), "/abs/notes.txt");
}

#[test]
fn path_join_cases() {
    assert_eq!(path_join("/a", "b"), "/a/b");
    assert_eq!(path_join("", "b"), "/b");
}
