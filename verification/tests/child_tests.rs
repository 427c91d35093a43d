use wasmbl::child::{CargoChild, ChildError, GuardAction, PackageExt, ProcessGuard};
use wasmbl::path::FsPath;
use wasmbl::project::{Metadata, Package};

fn path(parts: &[&str]) -> FsPath {
    FsPath::from_parts(parts.iter().map(|p| p.to_string()).collect())
}

#[test]
fn wait_success_accepts_exit_code_zero_only() {
    let mut child = CargoChild::new(42);
    assert!(!child.reaped);
    assert_eq!(child.wait_success(Some(0)), Ok(()));
    assert!(child.reaped);
    assert_eq!(child.id, 42);
    assert_eq!(CargoChild::new(1).wait_success(Some(101)), Err(ChildError::ExitStatus(101)));
    assert_eq!(CargoChild::new(1).wait_success(Some(-1)), Err(ChildError::ExitStatus(-1)));
    assert_eq!(CargoChild::new(1).wait_success(None), Err(ChildError::NoExitStatus));
}

#[test]
fn child_errors_say_what_happened() {
    assert_eq!(ChildError::ExitStatus(101).message(), "cargo exited with status: 101");
    assert_eq!(ChildError::ExitStatus(-2).message(), "cargo exited with status: -2");
    assert_eq!(ChildError::NoExitStatus.message(), "cargo exited with error");
}

#[test]
fn guard_reaps_the_old_process_before_it_spawns() {
    let mut guard = ProcessGuard::new();
    assert_eq!(guard.next_action(), GuardAction::Spawn);
    assert!(guard.install(10));
    assert_eq!(guard.next_action(), GuardAction::Reap(10));
    assert!(!guard.install(11));
    assert_eq!(guard.child, Some(10));
    assert_eq!(guard.release(), Some(10));
    assert_eq!(guard.child, None);
    assert_eq!(guard.next_action(), GuardAction::Spawn);
    assert!(guard.install(11));
    assert_eq!(guard.child, Some(11));
}

#[test]
fn releasing_an_empty_guard_gives_nothing() {
    let mut guard = ProcessGuard::new();
    assert_eq!(guard.release(), None);
    assert_eq!(guard.child, None);
}

#[test]
fn cargo_runs_in_the_directory_of_the_manifest_or_in_the_root() {
    let package = Package {
        name: "frontend".to_string(),
        id: "frontend 0.1.0".to_string(),
        manifest_dir: path(&["/", "w", "frontend"]),
        manifest_name: "Cargo.toml".to_string(),
        dependencies: vec![],
    };
    let command = package.cargo();
    assert_eq!(command.program, "cargo");
    assert_eq!(command.current_dir.parts, vec!["/", "w", "frontend"]);
    assert!(command.piped_stdout);
    let metadata = Metadata {
        packages: vec![package],
        workspace_members: vec![],
        workspace_root: path(&["/", "w"]),
        target_directory: path(&["/", "w", "target"]),
    };
    let command = metadata.cargo();
    assert_eq!(command.program, "cargo");
    assert_eq!(command.current_dir.parts, vec!["/", "w"]);
    assert!(command.piped_stdout);
}
