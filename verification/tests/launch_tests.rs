use rex::launch::{find_loader, map_child_outcome, plan_launch, ChildOutcome};
use rex::runtime::{run_action, RunAction, Runtime};
use rex::trailer::PayloadInfo;
use rex::BundleError;

fn entries(names: &[&str]) -> Vec<String> {
    names.iter().map(|n| n.to_string()).collect()
}

#[test]
fn launch_plan_glibc_loader() {
    let libs = entries(&["libc.so.6", "ld-linux-x86-64.so.2", "libm.so.6"]);
    let name = String::from("app");
    let temp = String::from("/tmp");
    let path = String::from("/usr/bin:/bin");
    let user_args = entries(&["--flag", "value"]);
    let plan = plan_launch(&name, &temp, &libs, true, &path, &user_args).unwrap();
    assert_eq!(plan.loader, "/tmp/app_bundle/libs/ld-linux-x86-64.so.2");
    assert_eq!(
        plan.args,
        entries(&[
            "--library-path",
            "/tmp/app_bundle/libs",
            "/tmp/app_bundle/app",
            "--flag",
            "value",
        ])
    );
    assert_eq!(plan.working_dir, "/tmp/app_bundle");
    assert_eq!(plan.path_prepend.as_deref(), Some("/tmp/app_bundle/bins:/usr/bin:/bin"));
}

#[test]
fn launch_plan_musl_loader() {
    let libs = entries(&["ld-musl-x86_64.so.1"]);
    let name = String::from("app");
    let temp = String::from("/tmp");
    let path = String::new();
    let plan = plan_launch(&name, &temp, &libs, false, &path, &Vec::new()).unwrap();
    assert_eq!(plan.loader, "/tmp/app_bundle/libs/ld-musl-x86_64.so.1");
    assert_eq!(plan.path_prepend, None);
}

#[test]
fn loader_absence_fails_before_any_spawn() {
    let libs = entries(&["libc.so.6", "libssl.so.3"]);
    let name = String::from("app");
    let temp = String::from("/tmp");
    let path = String::new();
    let r = plan_launch(&name, &temp, &libs, false, &path, &Vec::new());
    assert!(matches!(r, Err(BundleError::LoaderNotFound)));
}

#[test]
fn first_loader_wins() {
    let libs = entries(&["ld-linux.so.2", "ld-musl-x86_64.so.1"]);
    assert_eq!(find_loader(&libs), Some(0));
    let libs = entries(&["liba.so", "ld-musl-x86_64.so.1", "ld-linux.so.2"]);
    assert_eq!(find_loader(&libs), Some(1));
    assert_eq!(find_loader(&entries(&["liba.so"])), None);
    // a loader prefix in the middle of a name does not count
    assert_eq!(find_loader(&entries(&["old-linux.so"])), None);
}

#[test]
fn child_outcome_mapping() {
    assert!(map_child_outcome(&ChildOutcome::Exited { success: true }).is_ok());
    assert_eq!(
        map_child_outcome(&ChildOutcome::Exited { success: false }),
        Err(BundleError::ChildNonZeroExit)
    );
    // a spawn failure carries the operating system's description of why
    assert_eq!(
        map_child_outcome(&ChildOutcome::NotStarted { cause: String::from("no such file") }),
        Err(BundleError::SpawnFailed { cause: String::from("no such file") })
    );
}

#[test]
fn run_action_inspection_commands() {
    let help = String::from("--rex-help");
    let extract = String::from("--rex-extract");
    let other = String::from("--verbose");
    assert_eq!(run_action(true, Some(&help)), RunAction::ShowHelp);
    assert_eq!(run_action(true, Some(&extract)), RunAction::ExtractHere);
    assert_eq!(run_action(true, Some(&other)), RunAction::Execute);
    assert_eq!(run_action(true, None), RunAction::Execute);
    // inspection commands are ignored outside a debug build
    assert_eq!(run_action(false, Some(&help)), RunAction::Execute);
    assert_eq!(run_action(false, Some(&extract)), RunAction::Execute);
}

#[test]
fn runtime_state_transitions() {
    let mut unbundled = Runtime::new(None);
    assert!(!unbundled.is_bundled());
    assert!(!unbundled.has_run());
    assert_eq!(unbundled.take_payload_info(), None);

    let info = PayloadInfo {
        payload_size: 12,
        name_len: 3,
        target_binary_name: String::from("app"),
        payload_start_offset: 100,
    };
    let mut bundled = Runtime::new(Some(info));
    assert!(bundled.is_bundled());
    assert!(!bundled.has_run());
    let taken = bundled.take_payload_info().unwrap();
    assert_eq!(taken.target_binary_name, "app");
    assert!(bundled.take_payload_info().is_none());
    bundled.mark_executed();
    assert!(bundled.has_run());
}
