//! Child processes: the cargo commands that are run, how their end is judged,
//! and the guard that keeps at most one backend process alive.
//!
//! A process is known here by its id alone. The guard owns the id of the
//! process that runs; whoever takes the id out of the guard has to kill that
//! process and wait for it, and only an empty guard accepts a new one. So the
//! old process is gone before the new one counts as installed.

use vstd::prelude::*;
use vstd::string::*;
use crate::path::FsPath;
use crate::project::{Metadata, Package};
use crate::text::{signed_decimal, signed_decimal_text};

verus! {

/// How a cargo command is started.
#[derive(Debug)]
pub struct CargoCommand {
    /// The program.
    pub program: String,
    /// The directory that the command runs in.
    pub current_dir: FsPath,
    /// Whether the command's output is read by the caller.
    pub piped_stdout: bool,
}

/// Why a cargo command counts as failed.
#[derive(Debug, PartialEq, Eq, Clone, Copy, Structural)]
pub enum ChildError {
    /// It ended with this exit code, which is not zero.
    ExitStatus(i32),
    /// It ended without an exit code: a signal ended it.
    NoExitStatus,
}

/// A cargo child process.
#[derive(Debug, PartialEq, Eq, Clone, Copy, Structural)]
pub struct CargoChild {
    /// The process id.
    pub id: u32,
    /// Whether the process was waited for.
    pub reaped: bool,
}

/// What runs a cargo command in its own directory: a package in the directory
/// of its manifest, the workspace in its root.
pub trait PackageExt {
    /// The directory that cargo runs in.
    spec fn spec_cargo_dir(&self) -> Seq<Seq<char>>;

    /// A cargo command in that directory, with its output read by the caller.
    fn cargo(&self) -> (r: CargoCommand)
        ensures
            r.program@ == "cargo"@,
            r.current_dir@ == self.spec_cargo_dir(),
            r.piped_stdout,
    ;
}

impl PackageExt for Package {
    open spec fn spec_cargo_dir(&self) -> Seq<Seq<char>> {
        self.manifest_dir@
    }

    fn cargo(&self) -> (r: CargoCommand) {
        CargoCommand {
            program: String::from_str("cargo"),
            current_dir: self.manifest_dir.clone(),
            piped_stdout: true,
        }
    }
}

impl PackageExt for Metadata {
    open spec fn spec_cargo_dir(&self) -> Seq<Seq<char>> {
        self.workspace_root@
    }

    fn cargo(&self) -> (r: CargoCommand) {
        CargoCommand {
            program: String::from_str("cargo"),
            current_dir: self.workspace_root.clone(),
            piped_stdout: true,
        }
    }
}

/// How the end of a process is judged: it succeeded where it ended with exit
/// code zero.
pub open spec fn exit_result(code: Option<i32>) -> Result<(), ChildError> {
    match code {
        Some(c) => if c == 0 {
            Ok(())
        } else {
            Err(ChildError::ExitStatus(c))
        },
        None => Err(ChildError::NoExitStatus),
    }
}

/// What is said of a failed cargo command.
pub open spec fn error_text(error: ChildError) -> Seq<char> {
    match error {
        ChildError::ExitStatus(code) => "cargo exited with status: "@ + signed_decimal(
            code as int,
        ),
        ChildError::NoExitStatus => "cargo exited with error"@,
    }
}

impl ChildError {
    /// What is said of the failure.
    pub fn message(&self) -> (r: String)
        ensures
            r@ == error_text(*self),
    {
        match self {
            ChildError::ExitStatus(code) => {
                let digits = signed_decimal_text(*code as i64);
                String::from_str("cargo exited with status: ").concat(digits.as_str())
            },
            ChildError::NoExitStatus => String::from_str("cargo exited with error"),
        }
    }
}

impl CargoChild {
    /// The child with the given process id, not waited for yet.
    pub fn new(id: u32) -> (r: CargoChild)
        ensures
            r == (CargoChild { id, reaped: false }),
    {
        CargoChild { id, reaped: false }
    }

    /// Takes in how the process ended, as the wait for it reported: with an
    /// exit code, or without one. The child counts as waited for, and the
    /// result says whether it ended successfully.
    pub fn wait_success(&mut self, code: Option<i32>) -> (r: Result<(), ChildError>)
        ensures
            r == exit_result(code),
            *final(self) == (CargoChild { id: old(self).id, reaped: true }),
    {
        self.reaped = true;
        match code {
            Some(c) => if c == 0 {
                Ok(())
            } else {
                Err(ChildError::ExitStatus(c))
            },
            None => Err(ChildError::NoExitStatus),
        }
    }
}

/// What the owner of a backend process is to do.
#[derive(Debug, PartialEq, Eq, Clone, Copy, Structural)]
pub enum GuardAction {
    /// Kill the process with this id and wait for it to end.
    Reap(u32),
    /// Start the backend process and install it.
    Spawn,
}

/// The owner of the backend process: of one process at most.
#[derive(Debug, PartialEq, Eq, Clone, Copy, Structural)]
pub struct ProcessGuard {
    /// The id of the process that runs.
    pub child: Option<u32>,
}

impl ProcessGuard {
    /// What comes first when the backend is to be started anew: the process
    /// that runs is reaped, and only an empty guard spawns.
    pub open spec fn spec_next_action(self) -> GuardAction {
        match self.child {
            Some(id) => GuardAction::Reap(id),
            None => GuardAction::Spawn,
        }
    }

    /// A guard that owns nothing.
    pub fn new() -> (r: ProcessGuard)
        ensures
            r.child is None,
    {
        ProcessGuard { child: None }
    }

    /// What comes first when the backend is to be started anew.
    #[verifier::when_used_as_spec(spec_next_action)]
    pub fn next_action(self) -> (r: GuardAction)
        ensures
            r == self.spec_next_action(),
    {
        match self.child {
            Some(id) => GuardAction::Reap(id),
            None => GuardAction::Spawn,
        }
    }

    /// Takes the process out of the guard. The caller kills it and waits for
    /// it; the guard is empty from now on.
    pub fn release(&mut self) -> (r: Option<u32>)
        ensures
            r == old(self).child,
            final(self).child is None,
    {
        let r = self.child;
        self.child = None;
        r
    }

    /// Installs a process that was started. A guard that still owns one
    /// refuses, and keeps the one it owns.
    pub fn install(&mut self, id: u32) -> (accepted: bool)
        ensures
            accepted == (old(self).child is None),
            accepted ==> final(self).child == Some(id),
            !accepted ==> *final(self) == *old(self),
    {
        match self.child {
            Some(_) => false,
            None => {
                self.child = Some(id);
                true
            },
        }
    }
}

/// Starting the backend anew never leaves two processes: once the guard has
/// released what it owned it is empty, it asks for a spawn only then, and the
/// process installed after that is the only one it owns.
pub proof fn lemma_old_is_reaped_before_new(guard: ProcessGuard)
    ensures
        guard.child is Some ==> guard.spec_next_action() == GuardAction::Reap(guard.child->0),
        guard.spec_next_action() == GuardAction::Spawn <==> guard.child is None,
        (ProcessGuard { child: None }).spec_next_action() == GuardAction::Spawn,
{
}

} // verus!
