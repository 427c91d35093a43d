//! What holds of every build, whatever the steps report.
//!
//! A build is followed here through any number of reported steps. The output
//! directory is modelled by the set of its entries: the application's
//! pre-build hook may add entries, the default one adds none, making the
//! directory anew empties it, the post-build hook adds what it writes, and no
//! other step touches it. A step that failed is taken
//! to leave the directory as it was; the statements on the directory speak of
//! builds that succeeded, in which no such step failed.

use vstd::prelude::*;
use crate::defaults::{
    binary_name,
    default_entries,
    files_agree,
    index_name,
    lemma_default_output_is_complete,
    script_name,
    ProjectFiles,
};
use crate::hooks::Hook;
use crate::pipeline::{BuildAction, BuildFailure, BuildPipeline, Outcome, Stage};
use crate::retry::valid_backoff;

verus! {

/// The state after the steps went as reported, each report paired with the
/// pause drawn for it.
pub open spec fn run(start: BuildPipeline, steps: Seq<(Outcome, u64)>) -> BuildPipeline
    decreases steps.len(),
{
    if steps.len() == 0 {
        start
    } else {
        run(start, steps.drop_last()).spec_after(steps.last().0, steps.last().1)
    }
}

/// How many of the reported steps were answered with a pause and a retry.
pub open spec fn retries_taken(start: BuildPipeline, steps: Seq<(Outcome, u64)>) -> nat
    decreases steps.len(),
{
    if steps.len() == 0 {
        0
    } else {
        let before = run(start, steps.drop_last());
        let taken = retries_taken(start, steps.drop_last());
        if before.stage is Optimize && run(start, steps).stage is Backoff {
            taken + 1
        } else {
            taken
        }
    }
}

/// The entries of the output directory after the awaited step of `state` went
/// as `outcome` says.
pub open spec fn dir_after(
    state: BuildPipeline,
    outcome: Outcome,
    dir: Set<Seq<char>>,
    pre_build_writes: Set<Seq<char>>,
    post_build_writes: Set<Seq<char>>,
) -> Set<Seq<char>> {
    if !outcome.spec_succeeded() {
        dir
    } else {
        match state.spec_action() {
            BuildAction::RunPreBuild(Hook::Default) => dir,
            BuildAction::RunPreBuild(Hook::Custom) => dir + pre_build_writes,
            BuildAction::RecreateOutputDir => Set::empty(),
            BuildAction::RunPostBuild(_) => dir + post_build_writes,
            _ => dir,
        }
    }
}

/// The entries of the output directory after all the reported steps.
pub open spec fn output_after(
    start: BuildPipeline,
    steps: Seq<(Outcome, u64)>,
    dir: Set<Seq<char>>,
    pre_build_writes: Set<Seq<char>>,
    post_build_writes: Set<Seq<char>>,
) -> Set<Seq<char>>
    decreases steps.len(),
{
    if steps.len() == 0 {
        dir
    } else {
        dir_after(
            run(start, steps.drop_last()),
            steps.last().0,
            output_after(start, steps.drop_last(), dir, pre_build_writes, post_build_writes),
            pre_build_writes,
            post_build_writes,
        )
    }
}

/// What links the stage of a build to its output directory: from the fresh
/// directory on it is empty until the post-build hook ran, and then it holds
/// what that hook wrote.
pub open spec fn output_in_step(
    state: BuildPipeline,
    dir: Set<Seq<char>>,
    post_build_writes: Set<Seq<char>>,
) -> bool {
    &&& (state.stage is Optimize || state.stage is Backoff)
        ==> state.profile.spec_optimizer_config() is Some && dir == Set::<Seq<char>>::empty()
    &&& state.stage is PostBuild ==> dir == Set::<Seq<char>>::empty()
    &&& state.stage is Done ==> dir == post_build_writes
}

/// The default pre-build hook leaves the output directory as it was.
pub proof fn lemma_default_pre_build_writes_nothing(
    state: BuildPipeline,
    outcome: Outcome,
    dir: Set<Seq<char>>,
    pre_build_writes: Set<Seq<char>>,
    post_build_writes: Set<Seq<char>>,
)
    requires
        state.stage is PreBuild,
        state.hooks.pre_build == Hook::Default,
    ensures
        dir_after(state, outcome, dir, pre_build_writes, post_build_writes) == dir,
{
}

/// The steps never change the profile or the hooks of a build.
pub proof fn lemma_run_keeps_settings(start: BuildPipeline, steps: Seq<(Outcome, u64)>)
    ensures
        run(start, steps).profile == start.profile,
        run(start, steps).hooks == start.hooks,
    decreases steps.len(),
{
    if steps.len() > 0 {
        lemma_run_keeps_settings(start, steps.drop_last());
    }
}

/// Retry bound: each retry is paid from the budget that the build began with.
/// However the steps go, the retries taken and the retries left add up to that
/// budget, so no build retries more often than its budget allows.
pub proof fn lemma_retries_are_bounded(start: BuildPipeline, steps: Seq<(Outcome, u64)>)
    ensures
        retries_taken(start, steps) + run(start, steps).retries_left == start.retries_left,
        retries_taken(start, steps) <= start.retries_left,
    decreases steps.len(),
{
    if steps.len() > 0 {
        lemma_retries_are_bounded(start, steps.drop_last());
    }
}

/// Every pause that a build asks for is one of the pauses drawn for it: with
/// all drawn pauses in the accepted range, so is every pause asked for.
pub proof fn lemma_pauses_are_in_range(start: BuildPipeline, steps: Seq<(Outcome, u64)>)
    requires
        !(start.stage is Backoff),
        forall|i: int| 0 <= i < steps.len() ==> valid_backoff(#[trigger] steps[i].1),
    ensures
        run(start, steps).spec_action() matches BuildAction::Wait(millis) ==> valid_backoff(
            millis,
        ),
    decreases steps.len(),
{
    if steps.len() > 0 {
        lemma_pauses_are_in_range(start, steps.drop_last());
        assert(valid_backoff(steps[steps.len() - 1].1));
    }
}

/// Only a failure of the passing kind is retried, and only while retries are
/// left: an optimizer failure with no retry left, or with another message,
/// fails the build.
pub proof fn lemma_optimizer_failure_is_final(state: BuildPipeline, outcome: Outcome, pause: u64)
    requires
        state.stage is Optimize,
        !outcome.spec_succeeded(),
        state.retries_left == 0 || !outcome.spec_transient(),
    ensures
        state.spec_after(outcome, pause).stage == Stage::Failed(BuildFailure::Optimizer),
        state.spec_after(outcome, pause).spec_action() == BuildAction::Abort(
            BuildFailure::Optimizer,
        ),
{
}

/// A build that is over stays as it ended, whatever is reported to it.
pub proof fn lemma_finished_is_final(start: BuildPipeline, steps: Seq<(Outcome, u64)>)
    requires
        start.spec_finished(),
    ensures
        run(start, steps) == start,
    decreases steps.len(),
{
    if steps.len() > 0 {
        lemma_finished_is_final(start, steps.drop_last());
    }
}

/// The stage and the output directory stay linked through every step of a
/// build that began at its first step.
pub proof fn lemma_output_follows_stage(
    start: BuildPipeline,
    steps: Seq<(Outcome, u64)>,
    dir: Set<Seq<char>>,
    pre_build_writes: Set<Seq<char>>,
    post_build_writes: Set<Seq<char>>,
)
    requires
        start.stage is PreBuild,
    ensures
        output_in_step(
            run(start, steps),
            output_after(start, steps, dir, pre_build_writes, post_build_writes),
            post_build_writes,
        ),
    decreases steps.len(),
{
    if steps.len() > 0 {
        let before = run(start, steps.drop_last());
        let dir_before = output_after(
            start,
            steps.drop_last(),
            dir,
            pre_build_writes,
            post_build_writes,
        );
        lemma_output_follows_stage(
            start,
            steps.drop_last(),
            dir,
            pre_build_writes,
            post_build_writes,
        );
        lemma_run_keeps_settings(start, steps.drop_last());
        let dir_now = output_after(start, steps, dir, pre_build_writes, post_build_writes);
        if before.stage is PostBuild && steps.last().0.spec_succeeded() {
            assert(dir_now =~= post_build_writes);
        }
    }
}

/// A successful build leaves in the output directory exactly what the
/// post-build hook wrote: nothing that was there before the build remains,
/// and nothing that the pre-build hook may have put there.
pub proof fn lemma_output_is_what_post_build_wrote(
    start: BuildPipeline,
    steps: Seq<(Outcome, u64)>,
    dir: Set<Seq<char>>,
    pre_build_writes: Set<Seq<char>>,
    post_build_writes: Set<Seq<char>>,
)
    requires
        start.stage is PreBuild,
        run(start, steps).stage is Done,
    ensures
        output_after(start, steps, dir, pre_build_writes, post_build_writes) == post_build_writes,
{
    lemma_output_follows_stage(start, steps, dir, pre_build_writes, post_build_writes);
}

/// With the default post-build hook, a successful build leaves a script, a
/// binary and an entry document in the output directory, whatever the
/// project holds and whatever was in the directory before.
pub proof fn lemma_default_build_leaves_all_three(
    start: BuildPipeline,
    steps: Seq<(Outcome, u64)>,
    dir: Set<Seq<char>>,
    pre_build_writes: Set<Seq<char>>,
    files: ProjectFiles,
    static_entries: Set<Seq<char>>,
)
    requires
        start.stage is PreBuild,
        run(start, steps).stage is Done,
        files_agree(files, static_entries),
    ensures
        ({
            let left = output_after(
                start,
                steps,
                dir,
                pre_build_writes,
                default_entries(files, static_entries),
            );
            &&& left == default_entries(files, static_entries)
            &&& left.contains(script_name())
            &&& left.contains(binary_name())
            &&& left.contains(index_name())
        }),
{
    lemma_output_is_what_post_build_wrote(
        start,
        steps,
        dir,
        pre_build_writes,
        default_entries(files, static_entries),
    );
    lemma_default_output_is_complete(files, static_entries);
}

/// Building twice gives what building once gives: a second successful build
/// with the same hooks, begun on what the first one left, leaves the same
/// entries in the output directory.
pub proof fn lemma_rebuild_leaves_same_output(
    start: BuildPipeline,
    first: Seq<(Outcome, u64)>,
    second: Seq<(Outcome, u64)>,
    dir: Set<Seq<char>>,
    pre_build_writes: Set<Seq<char>>,
    post_build_writes: Set<Seq<char>>,
)
    requires
        start.stage is PreBuild,
        run(start, first).stage is Done,
        run(start, second).stage is Done,
    ensures
        output_after(
            start,
            second,
            output_after(start, first, dir, pre_build_writes, post_build_writes),
            pre_build_writes,
            post_build_writes,
        ) == output_after(start, first, dir, pre_build_writes, post_build_writes),
{
    let left = output_after(start, first, dir, pre_build_writes, post_build_writes);
    lemma_output_is_what_post_build_wrote(start, first, dir, pre_build_writes, post_build_writes);
    lemma_output_is_what_post_build_wrote(
        start,
        second,
        left,
        pre_build_writes,
        post_build_writes,
    );
}

/// A replaced hook runs instead of its default, never beside it: in no state
/// of a build does the pipeline ask for a hook other than the one that was
/// set, so with a post-build hook of the application's the default post-build
/// hook is never run.
pub proof fn lemma_only_the_set_hook_runs(start: BuildPipeline, steps: Seq<(Outcome, u64)>)
    ensures
        run(start, steps).spec_action() matches BuildAction::RunPostBuild(hook) ==> hook
            == start.hooks.post_build,
        run(start, steps).spec_action() matches BuildAction::RunPreBuild(hook) ==> hook
            == start.hooks.pre_build,
        start.hooks.post_build == Hook::Custom ==> run(start, steps).spec_action()
            != BuildAction::RunPostBuild(Hook::Default),
{
    lemma_run_keeps_settings(start, steps);
}

/// With a post-build hook that writes nothing, a successful build leaves the
/// output directory empty: none of the entries that the default hook would
/// have written is there.
pub proof fn lemma_silent_hook_leaves_output_empty(
    start: BuildPipeline,
    steps: Seq<(Outcome, u64)>,
    dir: Set<Seq<char>>,
    pre_build_writes: Set<Seq<char>>,
    entry: Seq<char>,
)
    requires
        start.stage is PreBuild,
        run(start, steps).stage is Done,
    ensures
        !output_after(start, steps, dir, pre_build_writes, Set::empty()).contains(entry),
{
    lemma_output_is_what_post_build_wrote(start, steps, dir, pre_build_writes, Set::empty());
}

} // verus!
