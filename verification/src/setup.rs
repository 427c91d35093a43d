//! From a declaration to the program's setup.
//!
//! A declaration is checked once, when the program is put together: its
//! configuration types must fit each other, the units it names must exist,
//! and an application with commands of its own must name their handler. What
//! passes is the setup that the program runs with.

use vstd::prelude::*;
use vstd::string::*;
use crate::cli::{entry_views, given, ArgName, Attr, AttrView};
use crate::text::text_of;
use crate::hooks::{Hook, Hooks};
use crate::project::{find_package, first_named, Package};

verus! {

/// Why a declaration gives no setup.
#[derive(Debug, PartialEq, Eq, Clone, Copy, Structural)]
pub enum GenerateError {
    /// A serve configuration type was given without a build configuration
    /// type.
    ServeArgsWithoutBuildArgs,
    /// No package has the frontend unit's name.
    FrontendNotFound,
    /// No package has the backend unit's name.
    BackendNotFound,
    /// The application has commands of its own and names no handler for them.
    MissingOtherCliCommands,
}

/// What is said of a declaration that gives no setup; `unit` is the name
/// that no package has, where that is the fault.
pub open spec fn generate_error_text(error: GenerateError, unit: Seq<char>) -> Seq<char> {
    match error {
        GenerateError::ServeArgsWithoutBuildArgs =>
            "if you use a custom ServeArgs, you must use a custom BuildArgs"@,
        GenerateError::FrontendNotFound => "package `"@ + unit + "` not found"@,
        GenerateError::BackendNotFound => "package `"@ + unit + "` not found"@,
        GenerateError::MissingOtherCliCommands =>
            "missing `other_cli_commands` to handle all the variants"@,
    }
}

impl GenerateError {
    /// What is said of the error; `unit` is the name that no package has,
    /// where that is the fault.
    pub fn message(&self, unit: &str) -> (r: String)
        ensures
            r@ == generate_error_text(*self, unit@),
    {
        match self {
            GenerateError::ServeArgsWithoutBuildArgs => String::from_str(
                "if you use a custom ServeArgs, you must use a custom BuildArgs",
            ),
            GenerateError::FrontendNotFound => String::from_str("package `").concat(unit).concat(
                "` not found",
            ),
            GenerateError::BackendNotFound => String::from_str("package `").concat(unit).concat(
                "` not found",
            ),
            GenerateError::MissingOtherCliCommands => String::from_str(
                "missing `other_cli_commands` to handle all the variants",
            ),
        }
    }
}

/// A command of the program.
#[derive(Debug, PartialEq, Eq, Clone, Copy, Structural)]
pub enum CliCommand {
    /// Build for release.
    Build,
    /// Build, serve and watch.
    Serve,
    /// One of the application's own commands.
    Other,
}

/// What the program runs with.
#[derive(Debug)]
pub struct CliSetup {
    /// The frontend unit's name.
    pub frontend_pkg_name: String,
    /// The backend unit's name, where one was given.
    pub backend_pkg_name: Option<String>,
    /// Which hooks the application replaces.
    pub hooks: Hooks,
    /// Whether the application brings its own build configuration type.
    pub custom_build_args: bool,
    /// Whether the application brings its own serve configuration type.
    pub custom_serve_args: bool,
    /// Whether the application handles commands of its own.
    pub other_cli_commands: bool,
    /// Whether the application gives the default output directory.
    pub custom_default_build_path: bool,
    /// The declaration, for the paths of what the application brings.
    pub attr: Attr,
}

/// The hook that a given argument replaces.
pub open spec fn hook_for(entries: Seq<(ArgName, (bool, Seq<Seq<char>>))>, name: ArgName) -> Hook {
    if given(entries, name) {
        Hook::Custom
    } else {
        Hook::Default
    }
}

/// The hooks that a declaration replaces: each hook whose argument was given.
pub open spec fn declared_hooks(entries: Seq<(ArgName, (bool, Seq<Seq<char>>))>) -> Hooks {
    Hooks {
        pre_build: hook_for(entries, ArgName::PreBuild),
        post_build: hook_for(entries, ArgName::PostBuild),
        serve: hook_for(entries, ArgName::Serve),
        frontend_watch: hook_for(entries, ArgName::FrontendWatch),
        backend_watch: hook_for(entries, ArgName::BackendWatch),
        backend_command: hook_for(entries, ArgName::BackendCommand),
    }
}

/// A name was given and no package has it.
pub open spec fn unit_missing(packages: Seq<Package>, name: Option<Seq<char>>) -> bool {
    match name {
        Some(n) => first_named(packages, n) is None,
        None => false,
    }
}

/// What is wrong with a declaration, for an application with so many
/// commands of its own; the first of the faults in the order of
/// `GenerateError`, or `None` where the declaration passes.
pub open spec fn fault(variants: usize, attr: AttrView, packages: Seq<Package>) -> Option<
    GenerateError,
> {
    if given(attr.2, ArgName::ServeArgs) && !given(attr.2, ArgName::BuildArgs) {
        Some(GenerateError::ServeArgsWithoutBuildArgs)
    } else if unit_missing(packages, attr.0) {
        Some(GenerateError::FrontendNotFound)
    } else if unit_missing(packages, attr.1) {
        Some(GenerateError::BackendNotFound)
    } else if variants > 0 && !given(attr.2, ArgName::OtherCliCommands) {
        Some(GenerateError::MissingOtherCliCommands)
    } else {
        None
    }
}

/// The command that runs: the one given, else `Serve`.
pub fn command_or_default(command: Option<CliCommand>) -> (r: CliCommand)
    ensures
        r == (match command {
            Some(c) => c,
            None => CliCommand::Serve,
        }),
{
    match command {
        Some(c) => c,
        None => CliCommand::Serve,
    }
}

/// Was a name given for which no package exists?
fn is_missing(packages: &Vec<Package>, name: &Option<String>) -> (r: bool)
    ensures
        r == unit_missing(packages@, text_of(*name)),
{
    match name {
        Some(n) => find_package(packages, n.as_str()).is_none(),
        None => false,
    }
}

/// The hook that the argument replaces in this declaration.
fn hook_of(attr: &Attr, name: ArgName) -> (r: Hook)
    ensures
        r == hook_for(entry_views(attr.entries@), name),
{
    if attr.get(name).is_some() {
        Hook::Custom
    } else {
        Hook::Default
    }
}

/// Checks a declaration and gives the setup that the program runs with.
/// `variants` is the number of the application's own commands, `current` the
/// name of the unit that the program itself belongs to: it is the frontend
/// unit where the declaration names none.
pub fn generate(variants: usize, attr: Attr, packages: &Vec<Package>, current: &str) -> (r: Result<
    CliSetup,
    GenerateError,
>)
    ensures
        match fault(variants, attr@, packages@) {
            Some(e) => r matches Err(got) && got == e,
            None => r matches Ok(setup) && {
                &&& setup.attr == attr
                &&& setup.frontend_pkg_name@ == (match attr@.0 {
                    Some(name) => name,
                    None => current@,
                })
                &&& text_of(setup.backend_pkg_name) == attr@.1
                &&& setup.hooks == declared_hooks(attr@.2)
                &&& setup.custom_build_args == given(attr@.2, ArgName::BuildArgs)
                &&& setup.custom_serve_args == given(attr@.2, ArgName::ServeArgs)
                &&& setup.other_cli_commands == given(attr@.2, ArgName::OtherCliCommands)
                &&& setup.custom_default_build_path == given(attr@.2, ArgName::DefaultBuildPath)
            },
        },
{
    let custom_build_args = attr.get(ArgName::BuildArgs).is_some();
    let custom_serve_args = attr.get(ArgName::ServeArgs).is_some();
    if custom_serve_args && !custom_build_args {
        return Err(GenerateError::ServeArgsWithoutBuildArgs);
    }
    if is_missing(packages, &attr.frontend_pkg_name) {
        return Err(GenerateError::FrontendNotFound);
    }
    if is_missing(packages, &attr.backend_pkg_name) {
        return Err(GenerateError::BackendNotFound);
    }
    let other_cli_commands = attr.get(ArgName::OtherCliCommands).is_some();
    if variants > 0 && !other_cli_commands {
        return Err(GenerateError::MissingOtherCliCommands);
    }
    let frontend_pkg_name = match &attr.frontend_pkg_name {
        Some(name) => name.clone(),
        None => String::from_str(current),
    };
    let backend_pkg_name = match &attr.backend_pkg_name {
        Some(name) => Some(name.clone()),
        None => None,
    };
    let hooks = Hooks {
        pre_build: hook_of(&attr, ArgName::PreBuild),
        post_build: hook_of(&attr, ArgName::PostBuild),
        serve: hook_of(&attr, ArgName::Serve),
        frontend_watch: hook_of(&attr, ArgName::FrontendWatch),
        backend_watch: hook_of(&attr, ArgName::BackendWatch),
        backend_command: hook_of(&attr, ArgName::BackendCommand),
    };
    let custom_default_build_path = attr.get(ArgName::DefaultBuildPath).is_some();
    Ok(
        CliSetup {
            frontend_pkg_name,
            backend_pkg_name,
            hooks,
            custom_build_args,
            custom_serve_args,
            other_cli_commands,
            custom_default_build_path,
            attr,
        },
    )
}

/// A declaration that passes replaces exactly the hooks whose arguments it
/// gives: every other hook keeps its default.
pub proof fn lemma_only_given_hooks_are_replaced(
    entries: Seq<(ArgName, (bool, Seq<Seq<char>>))>,
)
    ensures
        !given(entries, ArgName::PreBuild) ==> declared_hooks(entries).pre_build == Hook::Default,
        !given(entries, ArgName::PostBuild) ==> declared_hooks(entries).post_build
            == Hook::Default,
        given(entries, ArgName::PostBuild) ==> declared_hooks(entries).post_build == Hook::Custom,
        entries.len() == 0 ==> declared_hooks(entries) == Hooks::spec_default(),
{
}

} // verus!
