use wasmbl::hooks::{HookName, Hooks};
use wasmbl::path::FsPath;
use wasmbl::project::{
    find_package, is_member, wasmbl_init, InitError, Metadata, Package,
};

fn path(parts: &[&str]) -> FsPath {
    FsPath::from_parts(parts.iter().map(|p| p.to_string()).collect())
}

fn package(name: &str, id: &str, deps: &[&str]) -> Package {
    Package {
        name: name.to_string(),
        id: id.to_string(),
        manifest_dir: path(&["/", "w", name]),
        manifest_name: "Cargo.toml".to_string(),
        dependencies: deps.iter().map(|d| d.to_string()).collect(),
    }
}

fn metadata() -> Metadata {
    Metadata {
        packages: vec![
            package("frontend", "frontend 0.1.0", &["shared", "serde"]),
            package("backend", "backend 0.1.0", &["shared"]),
            package("shared", "shared 0.1.0", &[]),
            package("serde", "serde 1.0.0", &[]),
            package("shared", "shared 9.9.9", &[]),
        ],
        workspace_members: vec![
            "frontend 0.1.0".to_string(),
            "backend 0.1.0".to_string(),
            "shared 0.1.0".to_string(),
        ],
        workspace_root: path(&["/", "w"]),
        target_directory: path(&["/", "w", "target"]),
    }
}

#[test]
fn find_package_gives_the_first_of_that_name() {
    let m = metadata();
    assert_eq!(find_package(&m.packages, "frontend"), Some(0));
    assert_eq!(find_package(&m.packages, "shared"), Some(2));
    assert_eq!(find_package(&m.packages, "missing"), None);
    assert_eq!(find_package(&Vec::new(), "frontend"), None);
}

#[test]
fn is_member_goes_by_the_id() {
    let m = metadata();
    assert!(is_member(&m.workspace_members, "shared 0.1.0"));
    assert!(!is_member(&m.workspace_members, "shared 9.9.9"));
    assert!(!is_member(&m.workspace_members, "shared"));
}

#[test]
fn init_without_backend() {
    let ctx = wasmbl_init("frontend", None, None, Hooks::default(), metadata()).unwrap();
    assert_eq!(ctx.frontend_package().name, "frontend");
    assert!(ctx.backend_package().is_none());
    assert_eq!(ctx.default_build_path().parts, vec!["/", "w", "build"]);
    assert_eq!(ctx.target_path().parts, vec!["/", "w", "target"]);
    assert_eq!(ctx.hooks(), Hooks::default());
    assert_eq!(ctx.metadata().packages.len(), 5);
}

#[test]
fn init_with_backend_and_own_default_build_path() {
    let mut hooks = Hooks::default();
    hooks.replace(HookName::PostBuild).unwrap();
    let ctx = wasmbl_init(
        "frontend",
        Some("backend"),
        Some(path(&["/", "w", "public"])),
        hooks,
        metadata(),
    )
    .unwrap();
    assert_eq!(ctx.backend_package().unwrap().name, "backend");
    assert_eq!(ctx.default_build_path().parts, vec!["/", "w", "public"]);
    assert_eq!(ctx.hooks(), hooks);
}

#[test]
fn init_fails_on_unknown_frontend() {
    let r = wasmbl_init("nope", Some("backend"), None, Hooks::default(), metadata());
    assert_eq!(r.err(), Some(InitError::FrontendNotFound));
    let r = wasmbl_init("nope", Some("nope"), None, Hooks::default(), metadata());
    assert_eq!(r.err(), Some(InitError::FrontendNotFound));
}

#[test]
fn init_fails_on_unknown_backend() {
    let r = wasmbl_init("frontend", Some("nope"), None, Hooks::default(), metadata());
    assert_eq!(r.err(), Some(InitError::BackendNotFound));
}

#[test]
fn manifest_path_is_the_manifest_in_its_directory() {
    let p = package("frontend", "frontend 0.1.0", &[]);
    assert_eq!(p.manifest_path().parts, vec!["/", "w", "frontend", "Cargo.toml"]);
}

#[test]
fn init_errors_say_what_is_missing() {
    assert_eq!(InitError::FrontendNotFound.message(), "frontend package not found");
    assert_eq!(InitError::BackendNotFound.message(), "backend package not found");
}
