use wasmbl::defaults::{
    copy_options, static_copy_options, CopyOptions, default_backend_command, default_backend_watch, default_frontend_watch, default_index,
    default_post_build, default_pre_build, default_serve, default_watch_roots, find_member,
    EntryDocument, MissingBackend, ProjectFiles,
};
use wasmbl::hooks::Hooks;
use wasmbl::path::FsPath;
use wasmbl::project::{wasmbl_init, Metadata, Package, ProjectContext};
use wasmbl::text::contains;

fn path(parts: &[&str]) -> FsPath {
    FsPath::from_parts(parts.iter().map(|p| p.to_string()).collect())
}

fn package(name: &str, id: &str, deps: &[&str]) -> Package {
    Package {
        name: name.to_string(),
        id: id.to_string(),
        manifest_dir: path(&["/", "w", name]),
        manifest_name: "Cargo.toml".to_string(),
        dependencies: deps.iter().map(|d| d.to_string()).collect(),
    }
}

fn metadata() -> Metadata {
    Metadata {
        packages: vec![
            package("frontend", "frontend 0.1.0", &["shared", "serde", "ghost", "ui"]),
            package("backend", "backend 0.1.0", &["shared"]),
            package("shared", "shared 0.1.0", &[]),
            package("serde", "serde 1.0.0", &[]),
            package("ui", "ui 0.1.0", &[]),
            package("ui", "ui 2.0.0", &[]),
        ],
        workspace_members: vec![
            "frontend 0.1.0".to_string(),
            "backend 0.1.0".to_string(),
            "shared 0.1.0".to_string(),
            "ui 0.1.0".to_string(),
        ],
        workspace_root: path(&["/", "w"]),
        target_directory: path(&["/", "w", "target"]),
    }
}

fn context(backend: Option<&str>) -> ProjectContext {
    wasmbl_init("frontend", backend, None, Hooks::default(), metadata()).unwrap()
}

fn files(index_present: bool, static_present: bool, static_has_index: bool) -> ProjectFiles {
    ProjectFiles { index_present, static_present, static_has_index }
}

fn roots(list: &[FsPath]) -> Vec<Vec<String>> {
    list.iter().map(|p| p.parts.clone()).collect()
}

#[test]
fn minimal_project_gets_script_binary_and_entry_document() {
    let ctx = context(None);
    let plan = default_post_build(
        &path(&["/", "w", "build"]),
        ctx.frontend_package(),
        files(false, false, false),
    );
    assert!(!plan.copy_static);
    assert_eq!(plan.script_path.parts, vec!["/", "w", "build", "app.js"]);
    assert_eq!(plan.binary_path.parts, vec!["/", "w", "build", "app_bg.wasm"]);
    assert_eq!(plan.index_path.parts, vec!["/", "w", "build", "index.html"]);
    assert_eq!(plan.static_dir.parts, vec!["/", "w", "frontend", "static"]);
    assert_eq!(plan.entry, EntryDocument::WriteDefault);
    let index = default_index();
    assert!(contains(index, "<script type=\"module\">"));
    assert!(contains(index, "import init from \"/app.js\";"));
    assert!(contains(index, "init(new URL('app_bg.wasm', import.meta.url));"));
    assert!(contains(index, "</script>"));
}

#[test]
fn default_index_is_a_whole_document() {
    assert_eq!(
        default_index(),
        "<!DOCTYPE html><html><head><meta charset=\"utf-8\"/><script type=\"module\">import init from \"/app.js\";init(new URL('app_bg.wasm', import.meta.url));</script></head><body></body></html>"
    );
}

#[test]
fn every_output_directory_gets_an_entry_document() {
    let ctx = context(None);
    let out = path(&["out"]);
    let unit = ctx.frontend_package();
    let entry = |i, s, h| default_post_build(&out, unit, files(i, s, h)).entry;
    assert_eq!(entry(true, false, false), EntryDocument::CopyIndex);
    assert_eq!(entry(true, true, false), EntryDocument::CopyIndex);
    assert_eq!(entry(true, true, true), EntryDocument::CopyIndex);
    assert_eq!(entry(false, true, true), EntryDocument::FromStatic);
    assert_eq!(entry(false, true, false), EntryDocument::WriteDefault);
    assert_eq!(entry(false, false, false), EntryDocument::WriteDefault);
    assert_eq!(entry(false, false, true), EntryDocument::WriteDefault);
}

#[test]
fn static_directory_with_a_logo_only_still_gets_the_default_entry_document() {
    let ctx = context(None);
    let plan =
        default_post_build(&path(&["out"]), ctx.frontend_package(), files(false, true, false));
    assert!(plan.copy_static);
    assert_eq!(plan.entry, EntryDocument::WriteDefault);
    assert_eq!(plan.index_path.parts, vec!["out", "index.html"]);
    assert_eq!(plan.script_path.parts, vec!["out", "app.js"]);
    assert_eq!(plan.binary_path.parts, vec!["out", "app_bg.wasm"]);
    assert_eq!(plan.static_dir.parts, vec!["/", "w", "frontend", "static"]);
}

#[test]
fn static_files_are_copied_whenever_there_are_any() {
    let ctx = context(None);
    let out = path(&["out"]);
    let unit = ctx.frontend_package();
    for index_present in [false, true] {
        for static_has_index in [false, true] {
            assert!(default_post_build(&out, unit, files(index_present, true, static_has_index))
                .copy_static);
            assert!(!default_post_build(&out, unit, files(index_present, false, static_has_index))
                .copy_static);
        }
    }
}

#[test]
fn default_pre_build_hook_succeeds_and_changes_nothing() {
    let ctx = context(None);
    let mut invocation =
        wasmbl::toolchain::compiler_invocation(wasmbl::profile::BuildProfile::Dev, ctx.frontend_package());
    let outcome = default_pre_build(wasmbl::profile::BuildProfile::Dev, &mut invocation);
    assert!(matches!(outcome, wasmbl::pipeline::Outcome::Success));
    assert_eq!(invocation.program, "cargo");
    assert_eq!(invocation.leading.len(), 5);
    assert!(invocation.trailing.is_empty());
    assert_eq!(invocation.manifest_path.parts, vec!["/", "w", "frontend", "Cargo.toml"]);
}

#[test]
fn missing_backend_says_so() {
    assert_eq!(MissingBackend.message(), "missing backend unit");
}

#[test]
fn backend_command_runs_the_backend_unit() {
    let args = default_backend_command(&context(Some("backend"))).unwrap();
    assert_eq!(args, vec!["run", "-p", "backend"]);
}

#[test]
fn backend_command_needs_a_backend_unit() {
    assert_eq!(default_backend_command(&context(None)), Err(MissingBackend));
}

#[test]
fn frontend_watch_covers_the_unit_and_its_workspace_dependencies() {
    let ctx = context(None);
    let found = default_frontend_watch(&ctx);
    assert_eq!(
        roots(&found),
        vec![
            vec!["/", "w", "frontend", "Cargo.toml"],
            vec!["/", "w", "frontend", "src"],
            vec!["/", "w", "shared", "Cargo.toml"],
            vec!["/", "w", "shared", "src"],
            vec!["/", "w", "ui", "Cargo.toml"],
            vec!["/", "w", "ui", "src"],
        ]
    );
}

#[test]
fn dependency_outside_the_workspace_is_not_watched() {
    let m = metadata();
    let found = roots(&default_watch_roots(&m, &m.packages[0]));
    assert!(found.iter().all(|root| root[2] != "serde"));
    assert!(found.iter().all(|root| root[2] != "ghost"));
}

#[test]
fn workspace_member_is_found_among_packages_of_the_same_name() {
    let m = metadata();
    assert_eq!(find_member(&m, "ui"), Some(4));
    assert_eq!(find_member(&m, "shared"), Some(2));
    assert_eq!(find_member(&m, "serde"), None);
    assert_eq!(find_member(&m, "ghost"), None);
}

#[test]
fn unit_without_dependencies_watches_itself() {
    let m = metadata();
    let found = default_watch_roots(&m, &m.packages[2]);
    assert_eq!(
        roots(&found),
        vec![vec!["/", "w", "shared", "Cargo.toml"], vec!["/", "w", "shared", "src"]]
    );
}

#[test]
fn backend_watch_covers_the_backend_unit() {
    let found = default_backend_watch(&context(Some("backend"))).unwrap();
    assert_eq!(
        roots(&found),
        vec![
            vec!["/", "w", "backend", "Cargo.toml"],
            vec!["/", "w", "backend", "src"],
            vec!["/", "w", "shared", "Cargo.toml"],
            vec!["/", "w", "shared", "src"],
        ]
    );
}

#[test]
fn backend_watch_needs_a_backend_unit() {
    assert_eq!(default_backend_watch(&context(None)).err(), Some(MissingBackend));
}

#[test]
fn server_falls_back_to_the_entry_document() {
    let out = path(&["/", "w", "build"]);
    let index = vec!["/", "w", "build", "index.html"];
    assert_eq!(default_serve(&out, &FsPath::new(), true).parts, index);
    assert_eq!(default_serve(&out, &FsPath::new(), false).parts, index);
    assert_eq!(default_serve(&out, &path(&["users", "7"]), false).parts, index);
    assert_eq!(
        default_serve(&out, &path(&["app.js"]), true).parts,
        vec!["/", "w", "build", "app.js"]
    );
    assert_eq!(
        default_serve(&out, &path(&["css", "a.css"]), true).parts,
        vec!["/", "w", "build", "css", "a.css"]
    );
}

#[test]
fn copy_options_begin_as_the_copying_library_has_them() {
    assert_eq!(
        copy_options(),
        CopyOptions {
            overwrite: false,
            skip_exist: false,
            buffer_size: 64000,
            copy_inside: false,
            content_only: false,
            depth: 0,
        }
    );
}

#[test]
fn static_files_are_copied_without_their_directory() {
    let options = static_copy_options();
    assert!(options.content_only);
    assert_eq!(CopyOptions { content_only: false, ..options }, copy_options());
    let ctx = context(None);
    let plan =
        default_post_build(&path(&["out"]), ctx.frontend_package(), files(false, true, false));
    assert_eq!(plan.copy_options, options);
}
