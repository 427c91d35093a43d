use wasmbl::args::{listen_address, BuildArgs, DefaultBuildArgs, DefaultServeArgs, ServeArgs};
use wasmbl::hooks::Hooks;
use wasmbl::path::FsPath;
use wasmbl::project::{wasmbl_init, Metadata, Package, ProjectContext};

fn path(parts: &[&str]) -> FsPath {
    FsPath::from_parts(parts.iter().map(|p| p.to_string()).collect())
}

fn context() -> ProjectContext {
    let metadata = Metadata {
        packages: vec![Package {
            name: "app".to_string(),
            id: "app 0.1.0".to_string(),
            manifest_dir: path(&["/", "w", "app"]),
            manifest_name: "Cargo.toml".to_string(),
            dependencies: vec![],
        }],
        workspace_members: vec!["app 0.1.0".to_string()],
        workspace_root: path(&["/", "w"]),
        target_directory: path(&["/", "w", "target"]),
    };
    wasmbl_init("app", None, None, Hooks::default(), metadata).unwrap()
}

#[test]
fn default_build_args_use_the_default_build_path() {
    let args = DefaultBuildArgs::new();
    assert!(!args.profiling());
    assert_eq!(args.build_path(&context()).parts, vec!["/", "w", "build"]);
}

#[test]
fn build_path_of_the_command_line_wins() {
    let args = DefaultBuildArgs { build_path: Some(path(&["/", "tmp", "out"])), profiling: true };
    assert!(args.profiling());
    assert_eq!(args.build_path(&context()).parts, vec!["/", "tmp", "out"]);
}

#[test]
fn default_serve_args() {
    let args = DefaultServeArgs::new();
    assert!(!args.log());
    assert_eq!(args.ip(), "127.0.0.1");
    assert_eq!(args.port(), 3000);
    assert!(!args.build_args().profiling());
    assert!(args.build_args().build_path.is_none());
}

#[test]
fn listen_address_joins_address_and_port() {
    assert_eq!(listen_address(&DefaultServeArgs::new()), "127.0.0.1:3000");
    let args = DefaultServeArgs {
        log: true,
        ip: "0.0.0.0".to_string(),
        port: 65535,
        build_args: DefaultBuildArgs::new(),
    };
    assert_eq!(listen_address(&args), "0.0.0.0:65535");
    let args = DefaultServeArgs {
        log: false,
        ip: "::1".to_string(),
        port: 0,
        build_args: DefaultBuildArgs::new(),
    };
    assert_eq!(listen_address(&args), "::1:0");
}
