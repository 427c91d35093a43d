//! The development loop: an initial build, then serving and watching side by
//! side, with a rebuild or a restart on every signal.
//!
//! The loop is a state machine. The caller runs the tasks that it asks for
//! and reports what happened. Nothing is served or watched before the
//! initial build has succeeded, because the output directory has to exist
//! first. Once the tasks run, none of them is expected to return: the first
//! one that does ends the loop.

use vstd::prelude::*;
use vstd::string::*;
use crate::path::FsPath;
use crate::pipeline::BuildFailure;
use crate::watch::{Debouncer, Input, WatchEvent};

verus! {

/// Who serves the application during development.
#[derive(Debug, PartialEq, Eq, Clone, Copy, Structural)]
pub enum ServeMode {
    /// The built-in server serves the output directory.
    EmbeddedServer,
    /// The project's own backend serves; it is run and restarted as a child
    /// process.
    ExternalBackend,
}

/// Why the development loop ended.
#[derive(Debug, PartialEq, Eq, Clone, Copy, Structural)]
pub enum ServeError {
    /// The initial build failed.
    InitialBuild(BuildFailure),
    /// The backend serves, and no backend unit was named.
    MissingBackend,
    /// A watcher could not be set up.
    WatchInit,
    /// The server could not be set up or bound.
    ServerSetup,
    /// A task that should run for ever returned.
    UnexpectedExit,
}

/// Where the development loop stands.
#[derive(Debug, PartialEq, Eq, Clone, Copy, Structural)]
pub enum LoopState {
    /// Nothing has happened yet.
    Init,
    /// The initial build is awaited.
    InitialBuild,
    /// The tasks run.
    Running,
    /// The loop has ended.
    Stopped(ServeError),
}

/// What is reported to the development loop.
#[derive(Debug, PartialEq, Eq, Clone, Copy, Structural)]
pub enum LoopEvent {
    /// The loop is to begin.
    Start,
    /// The build that was asked for succeeded.
    BuildSucceeded,
    /// The build that was asked for failed.
    BuildFailed(BuildFailure),
    /// A watcher could not be set up.
    WatchInitFailed,
    /// The server could not be set up or bound.
    ServerSetupFailed,
    /// One of the tasks returned, with or without an error.
    TaskExited,
}

/// What the caller is to do.
#[derive(Debug, PartialEq, Eq, Clone, Copy, Structural)]
pub enum LoopAction {
    /// Run a build under the development profile and report how it ended.
    Build,
    /// Start the server and the frontend's watcher, side by side.
    StartEmbedded,
    /// Start the frontend's watcher and the backend's watcher, which also
    /// runs the backend, side by side.
    StartExternal,
    /// Keep the tasks running.
    Wait,
    /// End with this error.
    Exit(ServeError),
}

/// A development loop.
#[derive(Debug, PartialEq, Eq, Clone, Copy, Structural)]
pub struct DevLoop {
    /// Who serves.
    pub mode: ServeMode,
    /// Whether a backend unit was named.
    pub backend_named: bool,
    /// Where the loop stands.
    pub state: LoopState,
}

impl DevLoop {
    /// A loop that has not begun.
    pub open spec fn spec_new(mode: ServeMode, backend_named: bool) -> DevLoop {
        DevLoop { mode, backend_named, state: LoopState::Init }
    }

    /// The state that follows the initial build.
    pub open spec fn spec_after_build(self) -> LoopState {
        if self.mode == ServeMode::ExternalBackend && !self.backend_named {
            LoopState::Stopped(ServeError::MissingBackend)
        } else {
            LoopState::Running
        }
    }

    /// The state after `event`.
    pub open spec fn spec_next_state(self, event: LoopEvent) -> LoopState {
        match self.state {
            LoopState::Init => match event {
                LoopEvent::Start => LoopState::InitialBuild,
                _ => LoopState::Init,
            },
            LoopState::InitialBuild => match event {
                LoopEvent::BuildSucceeded => self.spec_after_build(),
                LoopEvent::BuildFailed(failure) => LoopState::Stopped(
                    ServeError::InitialBuild(failure),
                ),
                _ => LoopState::InitialBuild,
            },
            LoopState::Running => match event {
                LoopEvent::WatchInitFailed => LoopState::Stopped(ServeError::WatchInit),
                LoopEvent::ServerSetupFailed => LoopState::Stopped(ServeError::ServerSetup),
                LoopEvent::TaskExited => LoopState::Stopped(ServeError::UnexpectedExit),
                _ => LoopState::Running,
            },
            LoopState::Stopped(error) => LoopState::Stopped(error),
        }
    }

    /// The loop after `event`.
    pub open spec fn spec_after(self, event: LoopEvent) -> DevLoop {
        DevLoop { state: self.spec_next_state(event), ..self }
    }

    /// What the caller is to do on `event`.
    pub open spec fn spec_action(self, event: LoopEvent) -> LoopAction {
        match self.spec_next_state(event) {
            LoopState::Init => LoopAction::Wait,
            LoopState::InitialBuild => if self.state == LoopState::Init {
                LoopAction::Build
            } else {
                LoopAction::Wait
            },
            LoopState::Running => if self.state == LoopState::InitialBuild {
                match self.mode {
                    ServeMode::EmbeddedServer => LoopAction::StartEmbedded,
                    ServeMode::ExternalBackend => LoopAction::StartExternal,
                }
            } else {
                LoopAction::Wait
            },
            LoopState::Stopped(error) => LoopAction::Exit(error),
        }
    }

    /// A loop that has not begun.
    pub fn new(mode: ServeMode, backend_named: bool) -> (r: DevLoop)
        ensures
            r == DevLoop::spec_new(mode, backend_named),
    {
        DevLoop { mode, backend_named, state: LoopState::Init }
    }

    /// Takes in what happened and says what to do.
    pub fn step(&mut self, event: LoopEvent) -> (r: LoopAction)
        ensures
            *final(self) == old(self).spec_after(event),
            r == old(self).spec_action(event),
    {
        let next = match self.state {
            LoopState::Init => match event {
                LoopEvent::Start => LoopState::InitialBuild,
                _ => LoopState::Init,
            },
            LoopState::InitialBuild => match event {
                LoopEvent::BuildSucceeded => if self.mode == ServeMode::ExternalBackend
                    && !self.backend_named {
                    LoopState::Stopped(ServeError::MissingBackend)
                } else {
                    LoopState::Running
                },
                LoopEvent::BuildFailed(failure) => LoopState::Stopped(
                    ServeError::InitialBuild(failure),
                ),
                _ => LoopState::InitialBuild,
            },
            LoopState::Running => match event {
                LoopEvent::WatchInitFailed => LoopState::Stopped(ServeError::WatchInit),
                LoopEvent::ServerSetupFailed => LoopState::Stopped(ServeError::ServerSetup),
                LoopEvent::TaskExited => LoopState::Stopped(ServeError::UnexpectedExit),
                _ => LoopState::Running,
            },
            LoopState::Stopped(error) => LoopState::Stopped(error),
        };
        let action = match next {
            LoopState::Init => LoopAction::Wait,
            LoopState::InitialBuild => if self.state == LoopState::Init {
                LoopAction::Build
            } else {
                LoopAction::Wait
            },
            LoopState::Running => if self.state == LoopState::InitialBuild {
                match self.mode {
                    ServeMode::EmbeddedServer => LoopAction::StartEmbedded,
                    ServeMode::ExternalBackend => LoopAction::StartExternal,
                }
            } else {
                LoopAction::Wait
            },
            LoopState::Stopped(error) => LoopAction::Exit(error),
        };
        self.state = next;
        action
    }
}

/// What is said of the end of a development loop.
pub open spec fn serve_error_text(error: ServeError) -> Seq<char> {
    match error {
        ServeError::InitialBuild(_) => "initial build failed"@,
        ServeError::MissingBackend => "missing backend unit"@,
        ServeError::WatchInit => "could not initialize watcher"@,
        ServeError::ServerSetup => "could not set up the server"@,
        ServeError::UnexpectedExit => "server and watcher unexpectedly exited"@,
    }
}

impl ServeError {
    /// What is said of the error.
    pub fn message(&self) -> (r: &'static str)
        ensures
            r@ == serve_error_text(*self),
    {
        match self {
            ServeError::InitialBuild(_) => "initial build failed",
            ServeError::MissingBackend => "missing backend unit",
            ServeError::WatchInit => "could not initialize watcher",
            ServeError::ServerSetup => "could not set up the server",
            ServeError::UnexpectedExit => "server and watcher unexpectedly exited",
        }
    }
}

/// Which sources a watcher watches.
#[derive(Debug, PartialEq, Eq, Clone, Copy, Structural)]
pub enum WatchKind {
    /// The frontend's.
    Frontend,
    /// The backend's.
    Backend,
}

/// How the program is started anew where the platform matters.
#[derive(Debug, PartialEq, Eq, Clone, Copy, Structural)]
pub enum RestartMethod {
    /// The running program is replaced in place by a new run of itself.
    ReplaceImage,
    /// A new run of the program is started, and the running one exits.
    SpawnThenExit,
}

/// What a watcher does on a signal.
#[derive(Debug, PartialEq, Eq, Clone, Copy, Structural)]
pub enum RebuildAction {
    /// Build the frontend under the development profile, in this process.
    Build,
    /// Start the whole program anew, with the command line it was started
    /// with.
    FullRestart(RestartMethod),
    /// Reap the backend process, then start it anew.
    RestartBackend,
}

/// What a watch loop does with one message.
#[derive(Debug, PartialEq, Eq, Clone, Copy, Structural)]
pub enum WatchReaction {
    /// Nothing; the loop goes on.
    Idle,
    /// Run this action; should it fail, log the failure. The loop goes on.
    Run(RebuildAction),
    /// Log the error. The loop goes on.
    LogError,
}

/// What a watch loop receives.
#[derive(Debug)]
pub enum WatchMessage {
    /// A change in the file system.
    Change(WatchEvent),
    /// Nothing came: the time that was waited for has passed.
    Tick,
    /// The watcher reported an error.
    Error(String),
}

/// One watch loop.
#[derive(Debug, PartialEq, Eq, Clone, Copy, Structural)]
pub struct WatchLoop {
    /// Which sources it watches.
    pub kind: WatchKind,
    /// Whether a signal starts the whole program anew.
    pub full_restart: bool,
    /// Whether the platform can replace a running program in place.
    pub posix: bool,
    /// The debouncing state.
    pub debouncer: Debouncer,
}

/// How the program is started anew.
pub open spec fn spec_restart_method(posix: bool) -> RestartMethod {
    if posix {
        RestartMethod::ReplaceImage
    } else {
        RestartMethod::SpawnThenExit
    }
}

impl WatchLoop {
    /// What this loop does on a signal: with full restart the whole program
    /// starts anew; else the frontend's loop builds and the backend's loop
    /// restarts the backend.
    pub open spec fn spec_on_signal(self) -> RebuildAction {
        if self.full_restart {
            RebuildAction::FullRestart(spec_restart_method(self.posix))
        } else {
            match self.kind {
                WatchKind::Frontend => RebuildAction::Build,
                WatchKind::Backend => RebuildAction::RestartBackend,
            }
        }
    }

    /// The input that a message is to the debouncer, where it is one.
    pub open spec fn spec_input(
        message: WatchMessage,
        now: u64,
        output_dir: Seq<Seq<char>>,
        cache_dir: Seq<Seq<char>>,
    ) -> Option<Input> {
        match message {
            WatchMessage::Change(change) => if change.spec_counts(output_dir, cache_dir) {
                Some(Input::Event(now))
            } else {
                None
            },
            WatchMessage::Tick => Some(Input::Tick(now)),
            WatchMessage::Error(_) => None,
        }
    }

    /// A loop that has seen nothing.
    pub fn new(kind: WatchKind, full_restart: bool, posix: bool, window: u64) -> (r: WatchLoop)
        ensures
            r == (WatchLoop { kind, full_restart, posix, debouncer: Debouncer::spec_new(window) }),
    {
        WatchLoop { kind, full_restart, posix, debouncer: Debouncer::new(window) }
    }

    /// What this loop does on a signal.
    #[verifier::when_used_as_spec(spec_on_signal)]
    pub fn on_signal(self) -> (r: RebuildAction)
        ensures
            r == self.spec_on_signal(),
    {
        if self.full_restart {
            RebuildAction::FullRestart(
                if self.posix {
                    RestartMethod::ReplaceImage
                } else {
                    RestartMethod::SpawnThenExit
                },
            )
        } else {
            match self.kind {
                WatchKind::Frontend => RebuildAction::Build,
                WatchKind::Backend => RebuildAction::RestartBackend,
            }
        }
    }

    /// What follows an action that the loop ran: a failure is logged, and
    /// either way the loop goes on as it was.
    pub fn finish(self, succeeded: bool) -> (r: WatchReaction)
        ensures
            r == (if succeeded {
                WatchReaction::Idle
            } else {
                WatchReaction::LogError
            }),
    {
        if succeeded {
            WatchReaction::Idle
        } else {
            WatchReaction::LogError
        }
    }

    /// Takes in one message, received at `now`. A change that does not count
    /// changes nothing. An error is logged. Whatever comes, the loop goes on:
    /// only its debouncing state changes.
    pub fn receive(
        &mut self,
        message: &WatchMessage,
        now: u64,
        output_dir: &FsPath,
        cache_dir: &FsPath,
    ) -> (r: WatchReaction)
        ensures
            final(self).kind == old(self).kind,
            final(self).full_restart == old(self).full_restart,
            final(self).posix == old(self).posix,
            match WatchLoop::spec_input(*message, now, output_dir@, cache_dir@) {
                Some(input) => final(self).debouncer == old(self).debouncer.spec_after(input)
                    && r == (if old(self).debouncer.spec_signals(input) {
                    WatchReaction::Run(old(self).spec_on_signal())
                } else {
                    WatchReaction::Idle
                }),
                None => final(self).debouncer == old(self).debouncer && r == (if message
                    is Error {
                    WatchReaction::LogError
                } else {
                    WatchReaction::Idle
                }),
            },
    {
        let action = self.on_signal();
        match message {
            WatchMessage::Change(change) => {
                if self.debouncer.observe(change, now, output_dir, cache_dir) {
                    WatchReaction::Run(action)
                } else {
                    WatchReaction::Idle
                }
            },
            WatchMessage::Tick => {
                if self.debouncer.tick(now) {
                    WatchReaction::Run(action)
                } else {
                    WatchReaction::Idle
                }
            },
            WatchMessage::Error(_) => WatchReaction::LogError,
        }
    }
}

/// The loop after the events.
pub open spec fn run(start: DevLoop, events: Seq<LoopEvent>) -> DevLoop
    decreases events.len(),
{
    if events.len() == 0 {
        start
    } else {
        run(start, events.drop_last()).spec_after(events.last())
    }
}

/// The initial build comes first: a loop runs its tasks only after it was
/// told that a build succeeded, and it asks for the tasks to start only in
/// answer to that report.
pub proof fn lemma_tasks_start_after_build(
    mode: ServeMode,
    backend_named: bool,
    events: Seq<LoopEvent>,
)
    ensures
        run(DevLoop::spec_new(mode, backend_named), events).state == LoopState::Running
            ==> exists|i: int| 0 <= i < events.len() && events[i] == LoopEvent::BuildSucceeded,
        forall|state: DevLoop, event: LoopEvent|
            (#[trigger] state.spec_action(event) == LoopAction::StartEmbedded
                || state.spec_action(event) == LoopAction::StartExternal) ==> state.state
                == LoopState::InitialBuild && event == LoopEvent::BuildSucceeded,
    decreases events.len(),
{
    if events.len() > 0 {
        let head = events.drop_last();
        lemma_tasks_start_after_build(mode, backend_named, head);
        let start = DevLoop::spec_new(mode, backend_named);
        if run(start, events).state == LoopState::Running {
            if run(start, head).state == LoopState::Running {
                let i = choose|i: int| 0 <= i < head.len() && head[i] == LoopEvent::BuildSucceeded;
                assert(events[i] == head[i]);
            } else {
                assert(events[events.len() - 1] == LoopEvent::BuildSucceeded);
            }
        }
    }
}

/// Where the backend serves and no backend unit was named, the loop never
/// runs its tasks and never asks for a watcher: after the initial build it
/// ends with `MissingBackend`.
pub proof fn lemma_missing_backend_starts_nothing(events: Seq<LoopEvent>)
    ensures
        run(DevLoop::spec_new(ServeMode::ExternalBackend, false), events).state
            != LoopState::Running,
        events.len() > 0 ==> {
            let before = run(
                DevLoop::spec_new(ServeMode::ExternalBackend, false),
                events.drop_last(),
            );
            before.spec_action(events.last()) != LoopAction::StartExternal && before.spec_action(
                events.last(),
            ) != LoopAction::StartEmbedded
        },
    decreases events.len(),
{
    if events.len() > 0 {
        lemma_missing_backend_starts_nothing(events.drop_last());
        lemma_run_keeps_settings(
            DevLoop::spec_new(ServeMode::ExternalBackend, false),
            events.drop_last(),
        );
    }
}

/// The events change neither the mode nor whether a backend unit was named.
pub proof fn lemma_run_keeps_settings(start: DevLoop, events: Seq<LoopEvent>)
    ensures
        run(start, events).mode == start.mode,
        run(start, events).backend_named == start.backend_named,
    decreases events.len(),
{
    if events.len() > 0 {
        lemma_run_keeps_settings(start, events.drop_last());
    }
}

/// A loop that has ended stays ended, with the error it ended with.
pub proof fn lemma_stopped_is_final(start: DevLoop, events: Seq<LoopEvent>)
    requires
        start.state is Stopped,
    ensures
        run(start, events) == start,
    decreases events.len(),
{
    if events.len() > 0 {
        lemma_stopped_is_final(start, events.drop_last());
    }
}

/// A task that returns ends a running loop, whether it returned an error or
/// not.
pub proof fn lemma_any_return_ends_the_loop(state: DevLoop)
    requires
        state.state == LoopState::Running,
    ensures
        state.spec_action(LoopEvent::TaskExited) == LoopAction::Exit(ServeError::UnexpectedExit),
{
}

} // verus!
