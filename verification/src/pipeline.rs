//! The build pipeline: one build profile, run to completion.
//!
//! The pipeline is a state machine. Its state names the step that is to be
//! performed; the caller performs it and reports the outcome, and the machine
//! moves on: pre-build hook, compiler, binding generator, a fresh output
//! directory, the optimizer where the profile asks for it, post-build hook.
//! The first failure ends the build, except that an optimizer failure of the
//! passing kind is retried after a pause while retries are left.

use vstd::prelude::*;
use vstd::string::*;
use crate::hooks::{Hook, Hooks};
use crate::profile::{BuildProfile, OptimizerConfig};
use crate::text::{signed_decimal, signed_decimal_text};
use crate::retry::{
    decide,
    decide_with,
    is_transient,
    spec_decide,
    transient_message,
    valid_backoff,
    RetryDecision,
    BACKOFF_MIN_MS,
    DEFAULT_RETRIES,
};

verus! {

/// Why a build ended without its artifacts.
#[derive(Debug, PartialEq, Eq, Clone, Copy, Structural)]
pub enum BuildFailure {
    /// The pre-build hook failed.
    PreBuildHook,
    /// The compiler could not be started.
    CompilerNotStarted,
    /// The compiler ended with this exit code, which is not zero.
    CompilerExit(i32),
    /// The compiler was ended by a signal.
    CompilerSignal,
    /// The binding generator failed.
    Binding,
    /// The output directory could not be made anew.
    OutputDir,
    /// The optimizer failed for good, or failed once more than it is retried.
    Optimizer,
    /// The post-build hook failed.
    PostBuildHook,
}

/// The one-line summary of a failed build. A compiler that ended with an exit
/// code is told from one that a signal ended.
pub open spec fn failure_text(failure: BuildFailure) -> Seq<char> {
    match failure {
        BuildFailure::PreBuildHook => "pre-build hook failed"@,
        BuildFailure::CompilerNotStarted => "could not start build process"@,
        BuildFailure::CompilerExit(code) => "build process exit with code "@ + signed_decimal(
            code as int,
        ),
        BuildFailure::CompilerSignal => "build process has been terminated by a signal"@,
        BuildFailure::Binding => "could not generate WASM bindgen file"@,
        BuildFailure::OutputDir => "could not create build directory"@,
        BuildFailure::Optimizer => "command `wasm-opt` failed"@,
        BuildFailure::PostBuildHook => "post-build hook failed"@,
    }
}

/// The exit code of the program after a build: zero exactly where the build
/// succeeded.
pub open spec fn spec_exit_code(result: Result<(), BuildFailure>) -> i32 {
    match result {
        Ok(_) => 0,
        Err(_) => 1,
    }
}

impl BuildFailure {
    /// The one-line summary of the failure.
    pub fn message(&self) -> (r: String)
        ensures
            r@ == failure_text(*self),
    {
        match self {
            BuildFailure::PreBuildHook => String::from_str("pre-build hook failed"),
            BuildFailure::CompilerNotStarted => String::from_str("could not start build process"),
            BuildFailure::CompilerExit(code) => {
                let digits = signed_decimal_text(*code as i64);
                String::from_str("build process exit with code ").concat(digits.as_str())
            },
            BuildFailure::CompilerSignal => String::from_str(
                "build process has been terminated by a signal",
            ),
            BuildFailure::Binding => String::from_str("could not generate WASM bindgen file"),
            BuildFailure::OutputDir => String::from_str("could not create build directory"),
            BuildFailure::Optimizer => String::from_str("command `wasm-opt` failed"),
            BuildFailure::PostBuildHook => String::from_str("post-build hook failed"),
        }
    }
}

/// The exit code of the program after a build.
pub fn exit_code(result: Result<(), BuildFailure>) -> (r: i32)
    ensures
        r == spec_exit_code(result),
        r == 0 <==> result is Ok,
{
    match result {
        Ok(_) => 0,
        Err(_) => 1,
    }
}

/// Where a build stands: the step that is awaited, or how the build ended.
#[derive(Debug, PartialEq, Eq, Clone, Copy, Structural)]
pub enum Stage {
    /// The pre-build hook is awaited.
    PreBuild,
    /// The compiler is awaited.
    Compile,
    /// The binding generator is awaited.
    Bind,
    /// The removal and creation of the output directory is awaited.
    RecreateOutput,
    /// The optimizer is awaited.
    Optimize,
    /// The pause of so many milliseconds before the optimizer's next run is
    /// awaited.
    Backoff(u64),
    /// The post-build hook is awaited.
    PostBuild,
    /// The build succeeded.
    Done,
    /// The build failed.
    Failed(BuildFailure),
}

/// What the caller is to do next.
#[derive(Debug, PartialEq, Eq, Clone, Copy, Structural)]
pub enum BuildAction {
    /// Run the pre-build hook: the application's, or the default, which does
    /// nothing.
    RunPreBuild(Hook),
    /// Run the compiler.
    Compile,
    /// Run the binding generator on the compiler's output.
    Bind,
    /// Remove the output directory if it is there, then create it.
    RecreateOutputDir,
    /// Run the optimizer with these settings.
    Optimize(OptimizerConfig),
    /// Sleep for so many milliseconds.
    Wait(u64),
    /// Run the post-build hook: the application's, or the default.
    RunPostBuild(Hook),
    /// Nothing is left to do: the build succeeded.
    Finish,
    /// Nothing is left to do: the build failed.
    Abort(BuildFailure),
}

/// How a step went.
#[derive(Debug)]
pub enum Outcome {
    /// The step did what it was asked.
    Success,
    /// The step failed with this message.
    Failure(String),
    /// The process ran and ended: with this exit code, or by a signal.
    Exit(Option<i32>),
}

impl Outcome {
    /// The step did what it was asked.
    pub open spec fn spec_succeeded(self) -> bool {
        match self {
            Outcome::Success => true,
            Outcome::Failure(_) => false,
            Outcome::Exit(code) => code == Some(0i32),
        }
    }

    /// The step failed with a message that shows a collision over a cache.
    pub open spec fn spec_transient(self) -> bool {
        match self {
            Outcome::Failure(message) => transient_message(message@),
            _ => false,
        }
    }

    /// What is decided on a step that went like this and may be retried,
    /// with so many retries left and `pause` the pause drawn for it.
    pub open spec fn spec_retry(self, retries_left: u32, pause: u64) -> RetryDecision {
        match self {
            Outcome::Failure(message) => spec_decide(message@, retries_left, pause),
            _ => RetryDecision::GiveUp,
        }
    }

    /// What a compiler run with this outcome, which is no success, is
    /// reported as.
    pub open spec fn spec_compiler_failure(self) -> BuildFailure {
        match self {
            Outcome::Exit(Some(code)) => BuildFailure::CompilerExit(code),
            Outcome::Exit(None) => BuildFailure::CompilerSignal,
            _ => BuildFailure::CompilerNotStarted,
        }
    }

    /// Did the step do what it was asked?
    pub fn succeeded(&self) -> (r: bool)
        ensures
            r == self.spec_succeeded(),
    {
        match self {
            Outcome::Success => true,
            Outcome::Failure(_) => false,
            Outcome::Exit(code) => match code {
                Some(c) => *c == 0,
                None => false,
            },
        }
    }

    /// Did the step fail with a message that shows a collision over a cache?
    pub fn transient(&self) -> (r: bool)
        ensures
            r == self.spec_transient(),
    {
        match self {
            Outcome::Failure(message) => is_transient(message.as_str()),
            _ => false,
        }
    }

    /// What is decided on a step that went like this and may be retried,
    /// for a pause that was drawn already.
    pub fn retry_with(&self, retries_left: u32, pause: u64) -> (r: RetryDecision)
        ensures
            r == self.spec_retry(retries_left, pause),
    {
        match self {
            Outcome::Failure(message) => decide_with(message.as_str(), retries_left, pause),
            _ => RetryDecision::GiveUp,
        }
    }

    /// What is decided on a step that went like this and may be retried.
    /// Where it is retried, the pause is drawn at random.
    pub fn retry(&self, retries_left: u32) -> (r: RetryDecision)
        ensures
            match r {
                RetryDecision::RetryAfter(pause) => valid_backoff(pause) && self.spec_retry(
                    retries_left,
                    pause,
                ) == r,
                RetryDecision::GiveUp => forall|pause: u64| #[trigger]
                    self.spec_retry(retries_left, pause) == RetryDecision::GiveUp,
            },
    {
        match self {
            Outcome::Failure(message) => decide(message.as_str(), retries_left),
            _ => RetryDecision::GiveUp,
        }
    }

    /// What a compiler run with this outcome is reported as.
    pub fn compiler_failure(&self) -> (r: BuildFailure)
        ensures
            r == self.spec_compiler_failure(),
    {
        match self {
            Outcome::Exit(code) => match code {
                Some(c) => BuildFailure::CompilerExit(*c),
                None => BuildFailure::CompilerSignal,
            },
            _ => BuildFailure::CompilerNotStarted,
        }
    }
}

/// One build in progress.
#[derive(Debug, PartialEq, Eq, Clone, Copy, Structural)]
pub struct BuildPipeline {
    /// The profile that the build runs under.
    pub profile: BuildProfile,
    /// Which hooks run.
    pub hooks: Hooks,
    /// Where the build stands.
    pub stage: Stage,
    /// How often the optimizer may still be retried.
    pub retries_left: u32,
}

impl BuildPipeline {
    /// A build that has not begun: its first step, the pre-build hook, is
    /// awaited.
    pub open spec fn spec_start(
        profile: BuildProfile,
        profiling: bool,
        hooks: Hooks,
        retries: u32,
    ) -> BuildPipeline {
        BuildPipeline {
            profile: profile.spec_effective(profiling),
            hooks,
            stage: Stage::PreBuild,
            retries_left: retries,
        }
    }

    /// The build is over.
    pub open spec fn spec_finished(self) -> bool {
        self.stage is Done || self.stage is Failed
    }

    /// What the caller is to do in this state. A build never awaits the
    /// optimizer under a profile that has none; were it made to, the
    /// post-build hook would be next.
    pub open spec fn spec_action(self) -> BuildAction {
        match self.stage {
            Stage::PreBuild => BuildAction::RunPreBuild(self.hooks.pre_build),
            Stage::Compile => BuildAction::Compile,
            Stage::Bind => BuildAction::Bind,
            Stage::RecreateOutput => BuildAction::RecreateOutputDir,
            Stage::Optimize => match self.profile.spec_optimizer_config() {
                Some(config) => BuildAction::Optimize(config),
                None => BuildAction::RunPostBuild(self.hooks.post_build),
            },
            Stage::Backoff(millis) => BuildAction::Wait(millis),
            Stage::PostBuild => BuildAction::RunPostBuild(self.hooks.post_build),
            Stage::Done => BuildAction::Finish,
            Stage::Failed(failure) => BuildAction::Abort(failure),
        }
    }

    /// The stage that follows the fresh output directory.
    pub open spec fn spec_after_output(self) -> Stage {
        if self.profile.spec_optimizer_config() is Some {
            Stage::Optimize
        } else {
            Stage::PostBuild
        }
    }

    /// The stage that follows the awaited step, once it went as `outcome`
    /// says; `pause` is the pause to take should the step be retried.
    pub open spec fn spec_next_stage(self, outcome: Outcome, pause: u64) -> Stage {
        let ok = outcome.spec_succeeded();
        match self.stage {
            Stage::PreBuild => if ok {
                Stage::Compile
            } else {
                Stage::Failed(BuildFailure::PreBuildHook)
            },
            Stage::Compile => if ok {
                Stage::Bind
            } else {
                Stage::Failed(outcome.spec_compiler_failure())
            },
            Stage::Bind => if ok {
                Stage::RecreateOutput
            } else {
                Stage::Failed(BuildFailure::Binding)
            },
            Stage::RecreateOutput => if ok {
                self.spec_after_output()
            } else {
                Stage::Failed(BuildFailure::OutputDir)
            },
            Stage::Optimize => if ok {
                Stage::PostBuild
            } else {
                match outcome.spec_retry(self.retries_left, pause) {
                    RetryDecision::RetryAfter(millis) => Stage::Backoff(millis),
                    RetryDecision::GiveUp => Stage::Failed(BuildFailure::Optimizer),
                }
            },
            Stage::Backoff(_) => Stage::Optimize,
            Stage::PostBuild => if ok {
                Stage::Done
            } else {
                Stage::Failed(BuildFailure::PostBuildHook)
            },
            Stage::Done => Stage::Done,
            Stage::Failed(failure) => Stage::Failed(failure),
        }
    }

    /// The state after the awaited step went as `outcome` says. A retry is
    /// paid for when the pause begins.
    pub open spec fn spec_after(self, outcome: Outcome, pause: u64) -> BuildPipeline {
        let stage = self.spec_next_stage(outcome, pause);
        BuildPipeline {
            stage,
            retries_left: if self.stage is Optimize && stage is Backoff {
                (self.retries_left - 1) as u32
            } else {
                self.retries_left
            },
            ..self
        }
    }

    /// A build under `profile`, raised to `Profiling` where `profiling` is
    /// set, with the given hooks and so many retries of the optimizer.
    pub fn start(profile: BuildProfile, profiling: bool, hooks: Hooks, retries: u32) -> (r:
        BuildPipeline)
        ensures
            r == BuildPipeline::spec_start(profile, profiling, hooks, retries),
    {
        BuildPipeline {
            profile: profile.effective(profiling),
            hooks,
            stage: Stage::PreBuild,
            retries_left: retries,
        }
    }

    /// Is the build over?
    #[verifier::when_used_as_spec(spec_finished)]
    pub fn finished(self) -> (r: bool)
        ensures
            r == self.spec_finished(),
    {
        match self.stage {
            Stage::Done => true,
            Stage::Failed(_) => true,
            _ => false,
        }
    }

    /// How the build ended: `None` while it is in progress.
    pub fn result(self) -> (r: Option<Result<(), BuildFailure>>)
        ensures
            r == (match self.stage {
                Stage::Done => Some(Ok::<(), BuildFailure>(())),
                Stage::Failed(failure) => Some(Err::<(), BuildFailure>(failure)),
                _ => None,
            }),
    {
        match self.stage {
            Stage::Done => Some(Ok(())),
            Stage::Failed(failure) => Some(Err(failure)),
            _ => None,
        }
    }

    /// What the caller is to do now.
    #[verifier::when_used_as_spec(spec_action)]
    pub fn action(self) -> (r: BuildAction)
        ensures
            r == self.spec_action(),
    {
        match self.stage {
            Stage::PreBuild => BuildAction::RunPreBuild(self.hooks.pre_build),
            Stage::Compile => BuildAction::Compile,
            Stage::Bind => BuildAction::Bind,
            Stage::RecreateOutput => BuildAction::RecreateOutputDir,
            Stage::Optimize => match self.profile.optimizer_config() {
                Some(config) => BuildAction::Optimize(config),
                None => BuildAction::RunPostBuild(self.hooks.post_build),
            },
            Stage::Backoff(millis) => BuildAction::Wait(millis),
            Stage::PostBuild => BuildAction::RunPostBuild(self.hooks.post_build),
            Stage::Done => BuildAction::Finish,
            Stage::Failed(failure) => BuildAction::Abort(failure),
        }
    }

    /// Takes in how the awaited step went and moves on. `pause` is the pause
    /// to take should the step be retried. Returns what to do next.
    pub fn advance_with(&mut self, outcome: &Outcome, pause: u64) -> (r: BuildAction)
        ensures
            *final(self) == old(self).spec_after(*outcome, pause),
            r == final(self).spec_action(),
    {
        let ok = outcome.succeeded();
        let next = match self.stage {
            Stage::PreBuild => if ok {
                Stage::Compile
            } else {
                Stage::Failed(BuildFailure::PreBuildHook)
            },
            Stage::Compile => if ok {
                Stage::Bind
            } else {
                Stage::Failed(outcome.compiler_failure())
            },
            Stage::Bind => if ok {
                Stage::RecreateOutput
            } else {
                Stage::Failed(BuildFailure::Binding)
            },
            Stage::RecreateOutput => if ok {
                match self.profile.optimizer_config() {
                    Some(_) => Stage::Optimize,
                    None => Stage::PostBuild,
                }
            } else {
                Stage::Failed(BuildFailure::OutputDir)
            },
            Stage::Optimize => if ok {
                Stage::PostBuild
            } else {
                match outcome.retry_with(self.retries_left, pause) {
                    RetryDecision::RetryAfter(millis) => {
                        self.retries_left = self.retries_left - 1;
                        Stage::Backoff(millis)
                    },
                    RetryDecision::GiveUp => Stage::Failed(BuildFailure::Optimizer),
                }
            },
            Stage::Backoff(_) => Stage::Optimize,
            Stage::PostBuild => if ok {
                Stage::Done
            } else {
                Stage::Failed(BuildFailure::PostBuildHook)
            },
            Stage::Done => Stage::Done,
            Stage::Failed(failure) => Stage::Failed(failure),
        };
        self.stage = next;
        self.action()
    }

    /// Takes in how the awaited step went and moves on. Should the step be
    /// retried, and only then, the pause is drawn at random. Returns what to
    /// do next.
    pub fn advance(&mut self, outcome: &Outcome) -> (r: BuildAction)
        ensures
            exists|pause: u64|
                valid_backoff(pause) && *final(self) == #[trigger] old(self).spec_after(
                    *outcome,
                    pause,
                ),
            r == final(self).spec_action(),
    {
        let decision = match self.stage {
            Stage::Optimize => outcome.retry(self.retries_left),
            _ => RetryDecision::GiveUp,
        };
        let pause = match decision {
            RetryDecision::RetryAfter(millis) => millis,
            RetryDecision::GiveUp => BACKOFF_MIN_MS,
        };
        self.advance_with(outcome, pause)
    }
}

/// Starts a build with the usual number of retries.
pub fn build(profile: BuildProfile, profiling: bool, hooks: Hooks) -> (r: BuildPipeline)
    ensures
        r == BuildPipeline::spec_start(profile, profiling, hooks, DEFAULT_RETRIES),
{
    BuildPipeline::start(profile, profiling, hooks, DEFAULT_RETRIES)
}

} // verus!
