use wasmbl::path::{extension, with_extension, FsPath};

fn path(parts: &[&str]) -> FsPath {
    FsPath::from_parts(parts.iter().map(|p| p.to_string()).collect())
}

fn parts(p: &FsPath) -> Vec<&str> {
    p.parts.iter().map(|s| s.as_str()).collect()
}

#[test]
fn new_path_has_no_components() {
    assert!(FsPath::new().parts.is_empty());
    assert!(FsPath::new().file_name().is_none());
    assert!(FsPath::new().parent().is_none());
}

#[test]
fn join_adds_one_component() {
    let p = path(&["/", "work"]).join("build");
    assert_eq!(parts(&p), vec!["/", "work", "build"]);
    assert_eq!(parts(&FsPath::new().join("a")), vec!["a"]);
}

#[test]
fn join_path_adds_all_components() {
    let p = path(&["/", "out"]).join_path(&path(&["sub", "a.css"]));
    assert_eq!(parts(&p), vec!["/", "out", "sub", "a.css"]);
    assert_eq!(parts(&path(&["x"]).join_path(&FsPath::new())), vec!["x"]);
}

#[test]
fn clone_keeps_components() {
    let p = path(&["/", "a", "b"]);
    assert_eq!(p.clone().parts, p.parts);
}

#[test]
fn same_compares_component_by_component() {
    assert!(path(&["a", "b"]).same(&path(&["a", "b"])));
    assert!(!path(&["a", "b"]).same(&path(&["a"])));
    assert!(!path(&["a", "b"]).same(&path(&["a", "c"])));
    assert!(!path(&["ab"]).same(&path(&["a", "b"])));
    assert!(FsPath::new().same(&FsPath::new()));
}

#[test]
fn starts_with_goes_by_whole_components() {
    let base = path(&["/", "a", "b"]);
    assert!(path(&["/", "a", "b"]).starts_with(&base));
    assert!(path(&["/", "a", "b", "c.rs"]).starts_with(&base));
    assert!(!path(&["/", "a", "bc"]).starts_with(&base));
    assert!(!path(&["/", "a"]).starts_with(&base));
    assert!(path(&["/", "a"]).starts_with(&FsPath::new()));
}

#[test]
fn file_name_is_the_last_component() {
    assert_eq!(path(&["/", "a", "b.rs"]).file_name().unwrap(), "b.rs");
    assert_eq!(path(&["x"]).file_name().unwrap(), "x");
}

#[test]
fn parent_drops_the_last_component() {
    assert_eq!(parts(&path(&["/", "a", "Cargo.toml"]).parent().unwrap()), vec!["/", "a"]);
    assert!(path(&["x"]).parent().unwrap().parts.is_empty());
}

#[test]
fn strip_prefix_gives_what_lies_below() {
    let base = path(&["/", "styles"]);
    let rest = path(&["/", "styles", "sub", "a.scss"]).strip_prefix(&base).unwrap();
    assert_eq!(parts(&rest), vec!["sub", "a.scss"]);
    assert!(path(&["/", "styles"]).strip_prefix(&base).unwrap().parts.is_empty());
    assert!(path(&["/", "style", "a.scss"]).strip_prefix(&base).is_none());
    assert!(path(&["/"]).strip_prefix(&base).is_none());
}

#[test]
fn extension_is_what_follows_the_last_dot() {
    assert_eq!(extension("a.scss"), Some("scss"));
    assert_eq!(extension("a.tar.gz"), Some("gz"));
    assert_eq!(extension("a."), Some(""));
    assert_eq!(extension("a"), None);
    assert_eq!(extension(".hidden"), None);
    assert_eq!(extension(".hidden.sass"), Some("sass"));
    assert_eq!(extension(".."), None);
    assert_eq!(extension(""), None);
}

#[test]
fn with_extension_replaces_or_adds() {
    assert_eq!(with_extension("a.scss", "css"), "a.css");
    assert_eq!(with_extension("a.b.sass", "css"), "a.b.css");
    assert_eq!(with_extension("my_unit", "wasm"), "my_unit.wasm");
    assert_eq!(with_extension(".hidden", "css"), ".hidden.css");
    assert_eq!(with_extension("a.scss", ""), "a");
    assert_eq!(with_extension("a", ""), "a");
}

#[test]
fn path_with_extension_changes_the_last_component_only() {
    let p = path(&["/", "a.d", "b.scss"]).with_extension("css");
    assert_eq!(parts(&p), vec!["/", "a.d", "b.css"]);
    assert!(FsPath::new().with_extension("css").parts.is_empty());
}
