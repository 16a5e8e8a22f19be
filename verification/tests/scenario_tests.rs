//! One scenario through the whole pipeline, minus the file system: stage a
//! target with a library dependency and an extra file, pack a payload,
//! append a trailer, then decode the trailer back and plan the launch.

use rex::codec::{pack_payload, unpack_payload};
use rex::stage::{plan_staging, DepEntry, ElfKind, FileOp, TargetFacts};
use rex::launch::plan_launch;
use rex::trailer::{encode_trailer, find_payload_info, TAIL_LEN};

#[test]
fn end_to_end_generation_and_execution() {
    // generation: stage T, which depends on /usr/lib/L.so, plus notes.txt
    let temp = String::from("/tmp");
    let cwd = String::from("/work");
    let target = TargetFacts {
        path: String::from("/usr/bin/T"),
        name: String::from("T"),
        kind: ElfKind::Shared,
        deps: vec![DepEntry { path: String::from("/usr/lib/L.so"), exists: true }],
    };
    let files = vec![rex::stage::ExtraFile { path: String::from("notes.txt"), is_dir: false }];
    let ops = plan_staging(&temp, &cwd, &target, &Vec::new(), &Vec::new(), &files).unwrap();
    assert!(ops.contains(&FileOp::CopyFile {
        src: String::from("/usr/bin/T"),
        dest: String::from("/tmp/T_bundle/T"),
        required: true,
    }));
    assert!(ops.contains(&FileOp::CopyTree {
        src: String::from("/usr/lib/L.so"),
        dest: String::from("/tmp/T_bundle/libs"),
        content_only: true,
        follow_symlinks: true,
    }));
    assert!(ops.contains(&FileOp::CopyFile {
        src: String::from("/work/notes.txt"),
        dest: String::from("/tmp/T_bundle/notes.txt"),
        required: false,
    }));

    // the serialized tree (stood in for by opaque bytes) is packed at level 3
    let archive: Vec<u8> = (0..500u32).map(|i| (i % 11) as u8).collect();
    let packed = pack_payload(&archive, 3).unwrap();

    // the bundle file: generator image, payload, trailer
    let mut bundle = vec![0x7fu8; 300];
    let base_len = bundle.len() as u64;
    bundle.extend_from_slice(&packed);
    let trailer = encode_trailer(&b"T".to_vec(), packed.len() as u64);
    bundle.extend_from_slice(&trailer);

    // execution: decode the trailer from the tail of the file
    let tail = bundle[bundle.len() - TAIL_LEN..].to_vec();
    let info = find_payload_info(&tail, bundle.len() as u64).unwrap().unwrap();
    assert_eq!(info.target_binary_name, "T");
    assert_eq!(info.payload_size, packed.len() as u64);
    assert_eq!(info.payload_start_offset, base_len);

    // the payload byte range decompresses back to the archive
    let start = info.payload_start_offset as usize;
    let embedded = bundle[start..start + info.payload_size as usize].to_vec();
    assert_eq!(unpack_payload(&embedded).unwrap(), archive);

    // the launch is planned through the loader found under libs/
    let lib_entries = vec![String::from("L.so"), String::from("ld-linux-x86-64.so.2")];
    let path = String::from("/bin");
    let user_args = vec![String::from("--fast")];
    let plan = plan_launch(
        &info.target_binary_name,
        &temp,
        &lib_entries,
        false,
        &path,
        &user_args,
    )
    .unwrap();
    assert_eq!(plan.loader, "/tmp/T_bundle/libs/ld-linux-x86-64.so.2");
    assert_eq!(
        plan.args,
        vec![
            String::from("--library-path"),
            String::from("/tmp/T_bundle/libs"),
            String::from("/tmp/T_bundle/T"),
            String::from("--fast"),
        ]
    );
    assert_eq!(plan.working_dir, "/tmp/T_bundle");
}
