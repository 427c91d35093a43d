//! What the hooks do when the application has not replaced them.
//!
//! The pre-build hook succeeds and changes nothing. The others are described
//! here by what they ask of the file system, the watcher, the server and the
//! backend's command line.

use vstd::prelude::*;
use vstd::string::*;
use crate::path::FsPath;
use crate::pipeline::Outcome;
use crate::profile::BuildProfile;
use crate::project::{is_member, member_id, Metadata, Package, ProjectContext};
use crate::text::{no_texts, push_text, same_text, views};
use crate::toolchain::CompilerInvocation;

verus! {

/// A backend unit is needed and none was named.
#[derive(Debug, PartialEq, Eq, Clone, Copy, Structural)]
pub struct MissingBackend;

impl MissingBackend {
    /// What is said of the error.
    pub fn message(&self) -> (r: &'static str)
        ensures
            r@ == "missing backend unit"@,
    {
        "missing backend unit"
    }
}

/// What the caller found of the project's files.
#[derive(Debug, PartialEq, Eq, Clone, Copy, Structural)]
pub struct ProjectFiles {
    /// The project has an `index.html` of its own.
    pub index_present: bool,
    /// The frontend unit has a `static` directory.
    pub static_present: bool,
    /// That directory holds an `index.html`.
    pub static_has_index: bool,
}

/// How the entry document of the output directory comes about.
#[derive(Debug, PartialEq, Eq, Clone, Copy, Structural)]
pub enum EntryDocument {
    /// The project's `index.html` is copied.
    CopyIndex,
    /// The static files hold the entry document: it comes with them.
    FromStatic,
    /// The built-in entry document is written.
    WriteDefault,
}

/// How a directory is copied.
#[derive(Debug, PartialEq, Eq, Clone, Copy, Structural)]
pub struct CopyOptions {
    /// Whether files that exist are overwritten.
    pub overwrite: bool,
    /// Whether files that exist are skipped.
    pub skip_exist: bool,
    /// How many bytes are copied between two reports of progress.
    pub buffer_size: usize,
    /// Whether the directory is copied under a new name.
    pub copy_inside: bool,
    /// Whether only what the directory holds is copied, not the directory.
    pub content_only: bool,
    /// How many levels are read; 0 for all.
    pub depth: u64,
}

/// What the default post-build hook does.
#[derive(Debug)]
pub struct PostBuildPlan {
    /// Where the generated script is written.
    pub script_path: FsPath,
    /// Where the generated binary is written.
    pub binary_path: FsPath,
    /// Where the entry document goes.
    pub index_path: FsPath,
    /// The unit's directory of static files.
    pub static_dir: FsPath,
    /// Whether the static files are copied.
    pub copy_static: bool,
    /// How the entry document comes about, once the static files are copied.
    pub entry: EntryDocument,
    /// How the static files are copied.
    pub copy_options: CopyOptions,
}

/// The name of the generated script in the output directory.
pub open spec fn script_name() -> Seq<char> {
    "app.js"@
}

/// The name of the generated binary in the output directory.
pub open spec fn binary_name() -> Seq<char> {
    "app_bg.wasm"@
}

/// The name of the entry document in the output directory.
pub open spec fn index_name() -> Seq<char> {
    "index.html"@
}

/// The backend's command line after the program's name.
pub open spec fn backend_args(unit: Seq<char>) -> Seq<Seq<char>> {
    seq!["run"@, "-p"@, unit]
}

/// How the entry document comes about: the project's own where there is one;
/// else the one among the static files where they are copied and hold one;
/// else the built-in one. So every output directory gets an entry document.
pub open spec fn entry_choice(files: ProjectFiles) -> EntryDocument {
    if files.index_present {
        EntryDocument::CopyIndex
    } else if files.static_present && files.static_has_index {
        EntryDocument::FromStatic
    } else {
        EntryDocument::WriteDefault
    }
}

/// The entries that the default post-build hook leaves in an output directory
/// that was empty, where `static_entries` are the entries of the unit's
/// `static` directory: the script, the binary, the static files where there
/// are any, and the entry document.
pub open spec fn default_entries(
    files: ProjectFiles,
    static_entries: Set<Seq<char>>,
) -> Set<Seq<char>> {
    let fixed = Set::<Seq<char>>::empty().insert(script_name()).insert(binary_name());
    let copied = if files.static_present {
        fixed + static_entries
    } else {
        fixed
    };
    if entry_choice(files) == EntryDocument::FromStatic {
        copied
    } else {
        copied.insert(index_name())
    }
}

/// What the caller found agrees with the entries of the `static` directory.
pub open spec fn files_agree(files: ProjectFiles, static_entries: Set<Seq<char>>) -> bool {
    files.static_present && files.static_has_index ==> static_entries.contains(index_name())
}

/// The first package of that name that belongs to the workspace, among the
/// first `upto` packages.
pub open spec fn member_named(metadata: Metadata, name: Seq<char>, upto: int) -> Option<int>
    decreases upto,
{
    if upto <= 0 || upto > metadata.packages@.len() {
        None
    } else {
        match member_named(metadata, name, upto - 1) {
            Some(i) => Some(i),
            None => if metadata.packages@[upto - 1].name@ == name && member_id(
                metadata.workspace_members@,
                metadata.packages@[upto - 1].id@,
            ) {
                Some(upto - 1)
            } else {
                None
            },
        }
    }
}

/// What is watched of one unit: its manifest, and its source directory with
/// all that lies below.
pub open spec fn unit_roots(unit: Package) -> Seq<Seq<Seq<char>>> {
    seq![unit.manifest_dir@.push(unit.manifest_name@), unit.manifest_dir@.push("src"@)]
}

/// What is watched for the dependencies named in `deps`: for each name the
/// manifest and the source directory of the package of that name that
/// belongs to the workspace, where there is one.
pub open spec fn dependency_roots(metadata: Metadata, deps: Seq<String>) -> Seq<Seq<Seq<char>>>
    decreases deps.len(),
{
    if deps.len() == 0 {
        Seq::empty()
    } else {
        let rest = dependency_roots(metadata, deps.drop_last());
        match member_named(metadata, deps.last()@, metadata.packages@.len() as int) {
            Some(i) => rest + unit_roots(metadata.packages@[i]),
            None => rest,
        }
    }
}

/// What is watched for a unit: its manifest and its source directory, then
/// those of its dependencies within the workspace.
pub open spec fn watch_roots(metadata: Metadata, unit: Package) -> Seq<Seq<Seq<char>>> {
    unit_roots(unit) + dependency_roots(metadata, unit.dependencies@)
}

/// The paths that a list holds.
pub open spec fn path_views(list: Seq<FsPath>) -> Seq<Seq<Seq<char>>> {
    Seq::new(list.len(), |i: int| list[i]@)
}

/// The copy options that the copying library begins with.
pub open spec fn plain_copy() -> CopyOptions {
    CopyOptions {
        overwrite: false,
        skip_exist: false,
        buffer_size: 64000,
        copy_inside: false,
        content_only: false,
        depth: 0,
    }
}

/// Calls `fs_extra::dir::CopyOptions::new()` and hands its fields over one by
/// one: nothing is overwritten or skipped, 64000 bytes between reports, the
/// directory itself is copied, to any depth.
#[verifier::external_body]
fn new_copy_options() -> (r: CopyOptions)
    ensures
        r == plain_copy(),
{
    let options = fs_extra::dir::CopyOptions::new();
    CopyOptions {
        overwrite: options.overwrite,
        skip_exist: options.skip_exist,
        buffer_size: options.buffer_size,
        copy_inside: options.copy_inside,
        content_only: options.content_only,
        depth: options.depth,
    }
}

/// How a directory is copied into a bundle: as the copying library does it
/// unless told otherwise.
pub fn copy_options() -> (r: CopyOptions)
    ensures
        r == plain_copy(),
{
    new_copy_options()
}

/// How the static files are copied into the output directory: what the
/// directory holds, not the directory.
pub fn static_copy_options() -> (r: CopyOptions)
    ensures
        r == (CopyOptions { content_only: true, ..plain_copy() }),
{
    let mut options = new_copy_options();
    options.content_only = true;
    options
}

/// The built-in entry document: it loads the generated script as a module and
/// starts it on the generated binary.
pub fn default_index() -> (r: &'static str)
    ensures
        r@ == "<!DOCTYPE html><html><head><meta charset=\"utf-8\"/><script type=\"module\">import init from \"/app.js\";init(new URL('app_bg.wasm', import.meta.url));</script></head><body></body></html>"@,
{
    "<!DOCTYPE html><html><head><meta charset=\"utf-8\"/><script type=\"module\">import init from \"/app.js\";init(new URL('app_bg.wasm', import.meta.url));</script></head><body></body></html>"
}

/// The default pre-build hook: it succeeds, and leaves the compiler's
/// invocation as it is. It writes nothing.
pub fn default_pre_build(profile: BuildProfile, invocation: &mut CompilerInvocation) -> (r: Outcome)
    ensures
        r is Success,
        *final(invocation) == *old(invocation),
{
    Outcome::Success
}

/// The default post-build hook: the script and the binary go to the output
/// directory under their fixed names; then the static files are copied where
/// the unit has any; then the entry document comes about as `entry_choice`
/// says, so that there always is one.
pub fn default_post_build(build_path: &FsPath, frontend: &Package, files: ProjectFiles) -> (r:
    PostBuildPlan)
    ensures
        r.script_path@ == build_path@.push(script_name()),
        r.binary_path@ == build_path@.push(binary_name()),
        r.index_path@ == build_path@.push(index_name()),
        r.static_dir@ == frontend.manifest_dir@.push("static"@),
        r.copy_static == files.static_present,
        r.entry == entry_choice(files),
        r.copy_options == (CopyOptions { content_only: true, ..plain_copy() }),
{
    let entry = if files.index_present {
        EntryDocument::CopyIndex
    } else if files.static_present && files.static_has_index {
        EntryDocument::FromStatic
    } else {
        EntryDocument::WriteDefault
    };
    PostBuildPlan {
        script_path: build_path.join("app.js"),
        binary_path: build_path.join("app_bg.wasm"),
        index_path: build_path.join("index.html"),
        static_dir: frontend.manifest_dir.join("static"),
        copy_static: files.static_present,
        entry,
        copy_options: static_copy_options(),
    }
}

/// The default post-build hook always leaves a script, a binary and an entry
/// document, whatever the project holds; and where the unit has static files,
/// it leaves them too.
pub proof fn lemma_default_output_is_complete(
    files: ProjectFiles,
    static_entries: Set<Seq<char>>,
)
    requires
        files_agree(files, static_entries),
    ensures
        default_entries(files, static_entries).contains(script_name()),
        default_entries(files, static_entries).contains(binary_name()),
        default_entries(files, static_entries).contains(index_name()),
        files.static_present ==> static_entries.subset_of(default_entries(files, static_entries)),
{
}

/// The default backend command: `run -p` and the backend unit's name. It
/// fails where no backend unit was named.
pub fn default_backend_command(ctx: &ProjectContext) -> (r: Result<Vec<String>, MissingBackend>)
    ensures
        r is Ok <==> ctx.spec_backend() is Some,
        r matches Ok(args) ==> views(args@) == backend_args(
            ctx.spec_metadata().packages@[ctx.spec_backend()->0].name@,
        ),
{
    match ctx.backend_package() {
        None => Err(MissingBackend),
        Some(unit) => {
            let mut args = no_texts();
            push_text(&mut args, "run");
            push_text(&mut args, "-p");
            push_text(&mut args, unit.name.as_str());
            assert(views(args@) =~= backend_args(unit.name@));
            Ok(args)
        },
    }
}

/// The position of the first package of that name that belongs to the
/// workspace.
pub fn find_member(metadata: &Metadata, name: &str) -> (r: Option<usize>)
    ensures
        r is Some <==> member_named(*metadata, name@, metadata.packages@.len() as int) is Some,
        r matches Some(i) ==> i < metadata.packages@.len() && member_named(
            *metadata,
            name@,
            metadata.packages@.len() as int,
        ) == Some(i as int),
{
    let mut i: usize = 0;
    while i < metadata.packages.len()
        invariant
            i <= metadata.packages@.len(),
            member_named(*metadata, name@, i as int) is None,
        decreases metadata.packages@.len() - i,
    {
        let package = &metadata.packages[i];
        if same_text(package.name.as_str(), name) && is_member(
            &metadata.workspace_members,
            package.id.as_str(),
        ) {
            proof {
                lemma_member_found(*metadata, name@, i as int, metadata.packages@.len() as int);
            }
            return Some(i);
        }
        i += 1;
    }
    None
}

/// Once a package is the first of its name in the workspace among some of the
/// packages, it is so among more of them.
proof fn lemma_member_found(metadata: Metadata, name: Seq<char>, at: int, upto: int)
    requires
        0 <= at < upto <= metadata.packages@.len(),
        member_named(metadata, name, at) is None,
        metadata.packages@[at].name@ == name,
        member_id(metadata.workspace_members@, metadata.packages@[at].id@),
    ensures
        member_named(metadata, name, upto) == Some(at),
    decreases upto - at,
{
    if upto > at + 1 {
        lemma_member_found(metadata, name, at, upto - 1);
    }
}

/// Adds what is watched of one unit.
fn push_unit_roots(roots: &mut Vec<FsPath>, unit: &Package)
    ensures
        path_views(final(roots)@) == path_views(old(roots)@) + unit_roots(*unit),
{
    let ghost before = path_views(roots@);
    roots.push(unit.manifest_path());
    roots.push(unit.manifest_dir.join("src"));
    assert(path_views(roots@) =~= before + unit_roots(*unit));
}

/// What is watched for `unit`.
pub fn default_watch_roots(metadata: &Metadata, unit: &Package) -> (r: Vec<FsPath>)
    ensures
        path_views(r@) == watch_roots(*metadata, *unit),
{
    let mut roots: Vec<FsPath> = Vec::new();
    assert(path_views(roots@) =~= Seq::<Seq<Seq<char>>>::empty());
    push_unit_roots(&mut roots, unit);
    assert(path_views(roots@) =~= unit_roots(*unit) + dependency_roots(
        *metadata,
        unit.dependencies@.take(0),
    ));
    let mut k: usize = 0;
    while k < unit.dependencies.len()
        invariant
            k <= unit.dependencies@.len(),
            path_views(roots@) == unit_roots(*unit) + dependency_roots(
                *metadata,
                unit.dependencies@.take(k as int),
            ),
        decreases unit.dependencies@.len() - k,
    {
        let ghost before = dependency_roots(*metadata, unit.dependencies@.take(k as int));
        assert(unit.dependencies@.take(k + 1).drop_last() =~= unit.dependencies@.take(k as int));
        match find_member(metadata, unit.dependencies[k].as_str()) {
            Some(i) => {
                push_unit_roots(&mut roots, &metadata.packages[i]);
                assert(path_views(roots@) =~= unit_roots(*unit) + (before + unit_roots(
                    metadata.packages@[i as int],
                )));
            },
            None => {},
        }
        k += 1;
    }
    assert(unit.dependencies@.take(k as int) =~= unit.dependencies@);
    roots
}

/// The default frontend watch: the manifests and source directories of the
/// frontend unit and of its dependencies within the workspace.
pub fn default_frontend_watch(ctx: &ProjectContext) -> (r: Vec<FsPath>)
    ensures
        path_views(r@) == watch_roots(ctx.spec_metadata(), ctx.spec_frontend_package()),
{
    default_watch_roots(ctx.metadata(), ctx.frontend_package())
}

/// The default backend watch: the manifests and source directories of the
/// backend unit and of its dependencies within the workspace. It fails where
/// no backend unit was named.
pub fn default_backend_watch(ctx: &ProjectContext) -> (r: Result<Vec<FsPath>, MissingBackend>)
    ensures
        r is Ok <==> ctx.spec_backend() is Some,
        r matches Ok(roots) ==> path_views(roots@) == watch_roots(
            ctx.spec_metadata(),
            ctx.spec_metadata().packages@[ctx.spec_backend()->0],
        ),
{
    match ctx.backend_package() {
        None => Err(MissingBackend),
        Some(unit) => Ok(default_watch_roots(ctx.metadata(), unit)),
    }
}

/// The default server: the file that answers a request. The root and every
/// path that names no file of the output directory are answered with the
/// entry document, so that the application can route by itself.
pub fn default_serve(build_path: &FsPath, request: &FsPath, file_present: bool) -> (r: FsPath)
    ensures
        r@ == (if request@.len() > 0 && file_present {
            build_path@ + request@
        } else {
            build_path@.push(index_name())
        }),
{
    if request.parts.len() > 0 && file_present {
        build_path.join_path(request)
    } else {
        build_path.join("index.html")
    }
}

} // verus!
