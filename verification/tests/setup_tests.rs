use wasmbl::cli::{Attr, Token};
use wasmbl::hooks::{Hook, Hooks};
use wasmbl::path::FsPath;
use wasmbl::project::Package;
use wasmbl::setup::{command_or_default, generate, CliCommand, GenerateError};

fn id(s: &str) -> Token {
    Token::Ident(s.to_string())
}

fn lit(s: &str) -> Token {
    Token::Literal(s.to_string())
}

fn packages() -> Vec<Package> {
    ["front", "back"]
        .iter()
        .map(|name| Package {
            name: name.to_string(),
            id: format!("{} 0.1.0", name),
            manifest_dir: FsPath::from_parts(vec!["/".to_string(), name.to_string()]),
            manifest_name: "Cargo.toml".to_string(),
            dependencies: vec![],
        })
        .collect()
}

fn attr(tokens: Vec<Token>) -> Attr {
    Attr::parse(&tokens).unwrap()
}

#[test]
fn plain_declaration_gives_the_default_setup() {
    let setup = generate(0, attr(vec![]), &packages(), "runner").unwrap();
    assert_eq!(setup.frontend_pkg_name, "runner");
    assert!(setup.backend_pkg_name.is_none());
    assert_eq!(setup.hooks, Hooks::default());
    assert!(!setup.custom_build_args);
    assert!(!setup.custom_serve_args);
    assert!(!setup.other_cli_commands);
    assert!(!setup.custom_default_build_path);
}

#[test]
fn declaration_replaces_the_hooks_it_names() {
    let tokens = vec![
        lit("front"),
        Token::Comma,
        lit("back"),
        Token::Comma,
        id("post_build"),
        Token::Comma,
        id("backend_watch"),
        Token::Comma,
        id("default_build_path"),
    ];
    let setup = generate(0, attr(tokens), &packages(), "runner").unwrap();
    assert_eq!(setup.frontend_pkg_name, "front");
    assert_eq!(setup.backend_pkg_name.as_deref(), Some("back"));
    assert_eq!(setup.hooks.post_build, Hook::Custom);
    assert_eq!(setup.hooks.backend_watch, Hook::Custom);
    assert_eq!(setup.hooks.pre_build, Hook::Default);
    assert_eq!(setup.hooks.serve, Hook::Default);
    assert_eq!(setup.hooks.frontend_watch, Hook::Default);
    assert_eq!(setup.hooks.backend_command, Hook::Default);
    assert!(setup.custom_default_build_path);
    assert_eq!(setup.attr.entries.len(), 3);
}

#[test]
fn serve_args_need_build_args() {
    let r = generate(0, attr(vec![id("serve_args")]), &packages(), "runner");
    assert_eq!(r.err(), Some(GenerateError::ServeArgsWithoutBuildArgs));
    let both = attr(vec![id("serve_args"), Token::Comma, id("build_args")]);
    let setup = generate(0, both, &packages(), "runner").unwrap();
    assert!(setup.custom_build_args);
    assert!(setup.custom_serve_args);
    let setup = generate(0, attr(vec![id("build_args")]), &packages(), "runner").unwrap();
    assert!(setup.custom_build_args);
    assert!(!setup.custom_serve_args);
}

#[test]
fn named_units_must_exist() {
    let r = generate(0, attr(vec![lit("nope")]), &packages(), "runner");
    assert_eq!(r.err(), Some(GenerateError::FrontendNotFound));
    let r = generate(0, attr(vec![lit("front"), Token::Comma, lit("nope")]), &packages(), "r");
    assert_eq!(r.err(), Some(GenerateError::BackendNotFound));
    let r = generate(0, attr(vec![lit("nope"), Token::Comma, lit("nope")]), &packages(), "r");
    assert_eq!(r.err(), Some(GenerateError::FrontendNotFound));
}

#[test]
fn own_commands_need_a_handler() {
    let r = generate(2, attr(vec![]), &packages(), "runner");
    assert_eq!(r.err(), Some(GenerateError::MissingOtherCliCommands));
    let with_handler = attr(vec![id("other_cli_commands"), Token::Equals, id("run_other")]);
    let setup = generate(2, with_handler, &packages(), "runner").unwrap();
    assert!(setup.other_cli_commands);
}

#[test]
fn faults_are_reported_in_order() {
    let r = generate(1, attr(vec![lit("nope"), Token::Comma, id("serve_args")]), &packages(), "r");
    assert_eq!(r.err(), Some(GenerateError::ServeArgsWithoutBuildArgs));
    let r = generate(1, attr(vec![lit("nope")]), &packages(), "r");
    assert_eq!(r.err(), Some(GenerateError::FrontendNotFound));
}

#[test]
fn no_command_means_serve() {
    assert_eq!(command_or_default(None), CliCommand::Serve);
    assert_eq!(command_or_default(Some(CliCommand::Build)), CliCommand::Build);
    assert_eq!(command_or_default(Some(CliCommand::Serve)), CliCommand::Serve);
    assert_eq!(command_or_default(Some(CliCommand::Other)), CliCommand::Other);
}

#[test]
fn generate_errors_say_what_is_wrong() {
    assert_eq!(
        GenerateError::ServeArgsWithoutBuildArgs.message(""),
        "if you use a custom ServeArgs, you must use a custom BuildArgs"
    );
    assert_eq!(GenerateError::FrontendNotFound.message("nope"), "package `nope` not found");
    assert_eq!(GenerateError::BackendNotFound.message("api"), "package `api` not found");
    assert_eq!(
        GenerateError::MissingOtherCliCommands.message(""),
        "missing `other_cli_commands` to handle all the variants"
    );
}
