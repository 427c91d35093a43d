//! What the outside tools are asked: the compiler, the binding generator and
//! the optimizer.

use vstd::prelude::*;
use vstd::string::*;
use crate::path::{name_with_extension, with_extension, FsPath};
use crate::profile::{BuildProfile, OptimizerConfig};
use crate::project::Package;
use crate::text::{decimal, decimal_text, no_texts, push_text, replace_char, replaced, views};

verus! {

/// The target that the frontend is compiled for.
pub open spec fn wasm_target() -> Seq<char> {
    "wasm32-unknown-unknown"@
}

/// How the compiler is run: `cargo`, the leading arguments, the manifest's
/// path, and then the trailing arguments.
#[derive(Debug)]
pub struct CompilerInvocation {
    /// The program.
    pub program: String,
    /// The arguments before the manifest's path.
    pub leading: Vec<String>,
    /// The path of the unit's manifest.
    pub manifest_path: FsPath,
    /// The arguments after the manifest's path.
    pub trailing: Vec<String>,
}

/// What the binding generator is asked.
#[derive(Debug)]
pub struct BindingRequest {
    /// The binary that the compiler produced.
    pub input: FsPath,
    /// The name that the generated files go by.
    pub out_name: String,
    /// Whether debug information is kept.
    pub debug: bool,
}

/// The arguments before the manifest's path.
pub open spec fn compiler_leading() -> Seq<Seq<char>> {
    seq!["build"@, "--lib"@, "--target"@, wasm_target(), "--manifest-path"@]
}

/// The arguments after the manifest's path: `--release` for a release build.
pub open spec fn compiler_trailing(profile: BuildProfile) -> Seq<Seq<char>> {
    if profile.spec_is_release() {
        seq!["--release"@]
    } else {
        Seq::empty()
    }
}

/// The name of the binary that the compiler produces for a unit: the unit's
/// name with `_` for each `-`, and the extension `wasm`.
pub open spec fn artifact_name(unit: Seq<char>) -> Seq<char> {
    name_with_extension(replaced(unit, '-', "_"@), "wasm"@)
}

/// Where the compiler leaves the binary of a unit.
pub open spec fn artifact_path(
    target_dir: Seq<Seq<char>>,
    profile: BuildProfile,
    unit: Seq<char>,
) -> Seq<Seq<char>> {
    target_dir.push(wasm_target()).push(
        if profile.spec_is_release() {
            "release"@
        } else {
            "debug"@
        },
    ).push(artifact_name(unit))
}

/// The optimizer's command line after the program's name: the output goes to
/// standard output, then the two levels, then `-g` where debug information is
/// kept.
pub open spec fn optimizer_args(config: OptimizerConfig) -> Seq<Seq<char>> {
    let fixed = seq![
        "-o"@,
        "-"@,
        "-O"@,
        "-ol"@,
        decimal(config.optimization_level as nat),
        "-s"@,
        decimal(config.shrink_level as nat),
    ];
    if config.debug_info {
        fixed.push("-g"@)
    } else {
        fixed
    }
}

/// The release of the optimizer that is downloaded.
pub open spec fn optimizer_release() -> Seq<char> {
    "97"@
}

/// Where the optimizer is downloaded from, for a machine of the given
/// architecture and operating system.
pub open spec fn optimizer_url(arch: Seq<char>, os: Seq<char>) -> Seq<char> {
    "https://github.com/WebAssembly/binaryen/releases/download/version_"@ + optimizer_release()
        + "/binaryen-version_"@ + optimizer_release() + "-"@ + arch + "-"@ + os + ".tar.gz"@
}

/// How the compiler is run for `unit` under `profile`.
pub fn compiler_invocation(profile: BuildProfile, unit: &Package) -> (r: CompilerInvocation)
    ensures
        r.program@ == "cargo"@,
        views(r.leading@) == compiler_leading(),
        r.manifest_path@ == unit.manifest_dir@.push(unit.manifest_name@),
        views(r.trailing@) == compiler_trailing(profile),
{
    let mut leading = no_texts();
    push_text(&mut leading, "build");
    push_text(&mut leading, "--lib");
    push_text(&mut leading, "--target");
    push_text(&mut leading, "wasm32-unknown-unknown");
    push_text(&mut leading, "--manifest-path");
    assert(views(leading@) =~= compiler_leading());
    let mut trailing = no_texts();
    if profile.is_release() {
        push_text(&mut trailing, "--release");
    }
    assert(views(trailing@) =~= compiler_trailing(profile));
    CompilerInvocation {
        program: String::from_str("cargo"),
        leading,
        manifest_path: unit.manifest_path(),
        trailing,
    }
}

/// Where the compiler leaves the binary of `unit` under `profile`.
pub fn wasm_artifact_path(target_dir: &FsPath, profile: BuildProfile, unit: &Package) -> (r:
    FsPath)
    ensures
        r@ == artifact_path(target_dir@, profile, unit.name@),
{
    let file = replace_char(unit.name.as_str(), '-', "_");
    let file = with_extension(file.as_str(), "wasm");
    target_dir.join("wasm32-unknown-unknown").join(profile.artifact_dir()).join(file.as_str())
}

/// What the binding generator is asked for `unit` under `profile`: the
/// compiler's binary as input, `app` as the name of what it generates, and
/// debug information kept unless the build is a plain release.
pub fn binding_request(target_dir: &FsPath, profile: BuildProfile, unit: &Package) -> (r:
    BindingRequest)
    ensures
        r.input@ == artifact_path(target_dir@, profile, unit.name@),
        r.out_name@ == "app"@,
        r.debug == profile.spec_keeps_debug_info(),
{
    BindingRequest {
        input: wasm_artifact_path(target_dir, profile, unit),
        out_name: String::from_str("app"),
        debug: profile.keeps_debug_info(),
    }
}

/// The optimizer's command line after the program's name.
pub fn optimizer_command(config: OptimizerConfig) -> (r: Vec<String>)
    ensures
        views(r@) == optimizer_args(config),
{
    let mut args = no_texts();
    push_text(&mut args, "-o");
    push_text(&mut args, "-");
    push_text(&mut args, "-O");
    push_text(&mut args, "-ol");
    let level = decimal_text(config.optimization_level as u64);
    push_text(&mut args, level.as_str());
    push_text(&mut args, "-s");
    let level = decimal_text(config.shrink_level as u64);
    push_text(&mut args, level.as_str());
    if config.debug_info {
        push_text(&mut args, "-g");
    }
    assert(views(args@) =~= optimizer_args(config));
    args
}

/// Reads `platforms::TARGET_ARCH` and `platforms::TARGET_OS` and hands their
/// names over: the architecture and the operating system that the program
/// was compiled for. Nothing is claimed of which they are.
#[verifier::external_body]
fn host_platform() -> (r: (&'static str, &'static str)) {
    (platforms::TARGET_ARCH.as_str(), platforms::TARGET_OS.as_str())
}

/// Where the optimizer is downloaded from for the machine that the program
/// was compiled for.
pub fn install_wasm_opt() -> (r: String)
    ensures
        exists|arch: Seq<char>, os: Seq<char>| r@ == #[trigger] optimizer_url(arch, os),
{
    let (arch, os) = host_platform();
    optimizer_download_url(arch, os)
}

/// Where the optimizer is downloaded from.
pub fn optimizer_download_url(arch: &str, os: &str) -> (r: String)
    ensures
        r@ == optimizer_url(arch@, os@),
{
    let r = String::from_str(
        "https://github.com/WebAssembly/binaryen/releases/download/version_",
    ).concat("97").concat("/binaryen-version_").concat("97").concat("-").concat(arch).concat(
        "-",
    ).concat(os).concat(".tar.gz");
    r
}

} // verus!
