//! The two commands of the program: `build` and `serve`.
//!
//! `build` runs the pipeline once, for release. `serve` runs it once for
//! development and then serves and watches. Both take their configuration
//! through `BuildArgs` and `ServeArgs` and the project through its context,
//! and both hand back state machines for the caller to drive.

use vstd::prelude::*;
use vstd::string::*;
use crate::args::{BuildArgs, ServeArgs};
use crate::defaults::{
    backend_args,
    binary_name,
    default_backend_command,
    default_backend_watch,
    default_frontend_watch,
    default_post_build,
    default_pre_build,
    entry_choice,
    index_name,
    path_views,
    plain_copy,
    script_name,
    watch_roots,
    CopyOptions,
    MissingBackend,
    PostBuildPlan,
    ProjectFiles,
};
use crate::devloop::{DevLoop, ServeMode, WatchKind, WatchLoop};
use crate::hooks::Hook;
use crate::path::FsPath;
use crate::pipeline::{BuildPipeline, Outcome};
use crate::profile::BuildProfile;
use crate::project::ProjectContext;
use crate::retry::DEFAULT_RETRIES;
use crate::toolchain::{
    artifact_path,
    binding_request,
    compiler_invocation,
    compiler_leading,
    compiler_trailing,
    BindingRequest,
    CompilerInvocation,
};
use crate::text::views;
use crate::watch::{Debouncer, DEFAULT_WINDOW_MS};

verus! {

/// The `build` command: a build for release, raised to a profiling build
/// where the configuration asks for one, with the project's hooks.
pub fn run_build<A: BuildArgs>(args: &A, ctx: &ProjectContext) -> (r: BuildPipeline)
    ensures
        r == BuildPipeline::spec_start(
            BuildProfile::Release,
            args.spec_profiling(),
            ctx.spec_hooks(),
            DEFAULT_RETRIES,
        ),
{
    BuildPipeline::start(BuildProfile::Release, args.profiling(), ctx.hooks(), DEFAULT_RETRIES)
}

/// The build that `serve` begins with, and that a frontend watcher repeats on
/// every signal: a build for development, raised to a profiling build where
/// the build configuration asks for one.
pub fn dev_build<S: ServeArgs>(args: &S, ctx: &ProjectContext) -> (r: BuildPipeline)
    ensures
        r == BuildPipeline::spec_start(
            BuildProfile::Dev,
            args.spec_build_args().spec_profiling(),
            ctx.spec_hooks(),
            DEFAULT_RETRIES,
        ),
{
    BuildPipeline::start(
        BuildProfile::Dev,
        args.build_args().profiling(),
        ctx.hooks(),
        DEFAULT_RETRIES,
    )
}

/// The `serve` command: a development loop that has not begun. It knows
/// whether the project names a backend unit.
pub fn run_serve(ctx: &ProjectContext, mode: ServeMode) -> (r: DevLoop)
    ensures
        r == DevLoop::spec_new(mode, ctx.spec_backend() is Some),
{
    DevLoop::new(mode, ctx.backend_package().is_some())
}

/// How the compiler is run in this build.
pub fn compile_step(pipeline: &BuildPipeline, ctx: &ProjectContext) -> (r: CompilerInvocation)
    ensures
        r.program@ == "cargo"@,
        views(r.leading@) == compiler_leading(),
        r.manifest_path@ == ctx.spec_frontend_package().manifest_dir@.push(
            ctx.spec_frontend_package().manifest_name@,
        ),
        views(r.trailing@) == compiler_trailing(pipeline.profile),
{
    compiler_invocation(pipeline.profile, ctx.frontend_package())
}

/// What the binding generator is asked in this build.
pub fn bind_step(pipeline: &BuildPipeline, ctx: &ProjectContext) -> (r: BindingRequest)
    ensures
        r.input@ == artifact_path(
            ctx.spec_metadata().target_directory@,
            pipeline.profile,
            ctx.spec_frontend_package().name@,
        ),
        r.out_name@ == "app"@,
        r.debug == pipeline.profile.spec_keeps_debug_info(),
{
    binding_request(ctx.target_path(), pipeline.profile, ctx.frontend_package())
}

/// Runs the pre-build hook of this build where it is the default one: it
/// succeeds and leaves the invocation as it is. `None` where the
/// application's hook runs in its place; the invocation is not touched then
/// either.
pub fn pre_build_step(pipeline: &BuildPipeline, invocation: &mut CompilerInvocation) -> (r: Option<
    Outcome,
>)
    ensures
        r is Some <==> pipeline.hooks.pre_build == Hook::Default,
        r matches Some(outcome) ==> outcome is Success,
        *final(invocation) == *old(invocation),
{
    match pipeline.hooks.pre_build {
        Hook::Custom => None,
        Hook::Default => Some(default_pre_build(pipeline.profile, invocation)),
    }
}

/// What the post-build hook of this build does, where it is the default one;
/// `None` where the application's hook runs in its place.
pub fn post_build_step<A: BuildArgs>(
    pipeline: &BuildPipeline,
    args: &A,
    ctx: &ProjectContext,
    files: ProjectFiles,
) -> (r: Option<PostBuildPlan>)
    ensures
        r is Some <==> pipeline.hooks.post_build == Hook::Default,
        r matches Some(plan) ==> {
            &&& plan.script_path@ == args.spec_build_path(ctx).push(script_name())
            &&& plan.binary_path@ == args.spec_build_path(ctx).push(binary_name())
            &&& plan.index_path@ == args.spec_build_path(ctx).push(index_name())
            &&& plan.static_dir@ == ctx.spec_frontend_package().manifest_dir@.push("static"@)
            &&& plan.copy_static == files.static_present
            &&& plan.entry == entry_choice(files)
            &&& plan.copy_options == (CopyOptions { content_only: true, ..plain_copy() })
        },
{
    match pipeline.hooks.post_build {
        Hook::Custom => None,
        Hook::Default => {
            let build_path = args.build_path(ctx);
            Some(default_post_build(&build_path, ctx.frontend_package(), files))
        },
    }
}

/// The watch loop for the frontend's sources, with the usual quiet window.
pub fn watch_frontend(full_restart: bool, posix: bool) -> (r: WatchLoop)
    ensures
        r == (WatchLoop {
            kind: WatchKind::Frontend,
            full_restart,
            posix,
            debouncer: Debouncer::spec_new(DEFAULT_WINDOW_MS),
        }),
{
    WatchLoop::new(WatchKind::Frontend, full_restart, posix, DEFAULT_WINDOW_MS)
}

/// The watch loop for the backend's sources, with the usual quiet window.
pub fn watch_backend(full_restart: bool, posix: bool) -> (r: WatchLoop)
    ensures
        r == (WatchLoop {
            kind: WatchKind::Backend,
            full_restart,
            posix,
            debouncer: Debouncer::spec_new(DEFAULT_WINDOW_MS),
        }),
{
    WatchLoop::new(WatchKind::Backend, full_restart, posix, DEFAULT_WINDOW_MS)
}

/// The directories that the frontend's watcher begins with, where the
/// default hook sets it up; `None` where the application's hook does.
pub fn frontend_watch_roots(ctx: &ProjectContext) -> (r: Option<Vec<FsPath>>)
    ensures
        r is Some <==> ctx.spec_hooks().frontend_watch == Hook::Default,
        r matches Some(roots) ==> path_views(roots@) == watch_roots(
            ctx.spec_metadata(),
            ctx.spec_frontend_package(),
        ),
{
    match ctx.hooks().frontend_watch {
        Hook::Custom => None,
        Hook::Default => Some(default_frontend_watch(ctx)),
    }
}

/// The directories that the backend's watcher begins with, where the default
/// hook sets it up; `None` where the application's hook does. The default
/// hook fails where no backend unit was named.
pub fn backend_watch_roots(ctx: &ProjectContext) -> (r: Option<Result<Vec<FsPath>, MissingBackend>>)
    ensures
        r is Some <==> ctx.spec_hooks().backend_watch == Hook::Default,
        r matches Some(found) ==> (found is Ok <==> ctx.spec_backend() is Some),
        r matches Some(Ok(roots)) ==> path_views(roots@) == watch_roots(
            ctx.spec_metadata(),
            ctx.spec_metadata().packages@[ctx.spec_backend()->0],
        ),
{
    match ctx.hooks().backend_watch {
        Hook::Custom => None,
        Hook::Default => Some(default_backend_watch(ctx)),
    }
}

/// The backend's command line, where the default hook builds it; `None`
/// where the application's hook does. The default hook fails where no
/// backend unit was named.
pub fn backend_command(ctx: &ProjectContext) -> (r: Option<Result<Vec<String>, MissingBackend>>)
    ensures
        r is Some <==> ctx.spec_hooks().backend_command == Hook::Default,
        r matches Some(found) ==> (found is Ok <==> ctx.spec_backend() is Some),
        r matches Some(Ok(args)) ==> views(args@) == backend_args(
            ctx.spec_metadata().packages@[ctx.spec_backend()->0].name@,
        ),
{
    match ctx.hooks().backend_command {
        Hook::Custom => None,
        Hook::Default => Some(default_backend_command(ctx)),
    }
}

} // verus!
