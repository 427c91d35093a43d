//! Watching the source tree: which events count, and when a burst of them
//! becomes one signal.
//!
//! Events are filtered first: nothing under the output directory, nothing
//! under the toolchain's cache directory and no entry whose name begins with
//! `.` counts. What is left is debounced: after an event the watcher waits for
//! the quiet window to pass without another event and then delivers one
//! signal; an event within the window starts the wait anew.

use vstd::prelude::*;
use vstd::string::*;
use crate::path::{path_prefix, FsPath};

verus! {

/// The quiet window unless the caller says otherwise, in milliseconds.
pub const DEFAULT_WINDOW_MS: u64 = 2000;

/// A change in the file system, with the absolute path it is about.
#[derive(Debug)]
pub enum WatchEvent {
    /// An entry was created.
    Created(FsPath),
    /// An entry was written to.
    Modified(FsPath),
    /// An entry was removed.
    Removed(FsPath),
    /// An entry was renamed, from the first path to the second.
    Renamed(FsPath, FsPath),
    /// The watched tree under this path has to be read again. This tells of
    /// no change, and never counts.
    Rescan(FsPath),
}

/// The last component of the path begins with `.`.
pub open spec fn hidden(path: Seq<Seq<char>>) -> bool {
    path.len() > 0 && path.last().len() > 0 && path.last()[0] == '.'
}

/// A change at `path` counts: it lies neither under the output directory nor
/// under the cache directory, and is not hidden.
pub open spec fn relevant(
    path: Seq<Seq<char>>,
    output_dir: Seq<Seq<char>>,
    cache_dir: Seq<Seq<char>>,
) -> bool {
    !path_prefix(output_dir, path) && !path_prefix(cache_dir, path) && !hidden(path)
}

impl WatchEvent {
    /// The path by which the event is judged: for a renaming, the new path.
    pub open spec fn spec_path(self) -> Seq<Seq<char>> {
        match self {
            WatchEvent::Created(path) => path@,
            WatchEvent::Modified(path) => path@,
            WatchEvent::Removed(path) => path@,
            WatchEvent::Renamed(_, to) => to@,
            WatchEvent::Rescan(path) => path@,
        }
    }

    /// The event counts: it tells of a change, and the change is at a path
    /// that counts.
    pub open spec fn spec_counts(self, output_dir: Seq<Seq<char>>, cache_dir: Seq<Seq<char>>) -> bool {
        !(self is Rescan) && relevant(self.spec_path(), output_dir, cache_dir)
    }

    /// The path by which the event is judged.
    pub fn path(&self) -> (r: &FsPath)
        ensures
            r@ == self.spec_path(),
    {
        match self {
            WatchEvent::Created(path) => path,
            WatchEvent::Modified(path) => path,
            WatchEvent::Removed(path) => path,
            WatchEvent::Renamed(_, to) => to,
            WatchEvent::Rescan(path) => path,
        }
    }

    /// Does the event count?
    pub fn is_relevant(&self, output_dir: &FsPath, cache_dir: &FsPath) -> (r: bool)
        ensures
            r == self.spec_counts(output_dir@, cache_dir@),
    {
        match self {
            WatchEvent::Rescan(_) => false,
            _ => is_relevant_path(self.path(), output_dir, cache_dir),
        }
    }
}

/// Does the last component of the path begin with `.`?
pub fn is_hidden(path: &FsPath) -> (r: bool)
    ensures
        r == hidden(path@),
{
    match path.file_name() {
        None => false,
        Some(name) => {
            let name = name.as_str();
            name.unicode_len() > 0 && name.get_char(0) == '.'
        },
    }
}

/// Does a change at `path` count?
pub fn is_relevant_path(path: &FsPath, output_dir: &FsPath, cache_dir: &FsPath) -> (r: bool)
    ensures
        r == relevant(path@, output_dir@, cache_dir@),
{
    !path.starts_with(output_dir) && !path.starts_with(cache_dir) && !is_hidden(path)
}

/// A watcher's debouncing state. Times are in milliseconds on a clock that
/// does not run backwards.
#[derive(Debug, PartialEq, Eq, Clone, Copy, Structural)]
pub struct Debouncer {
    /// The quiet window.
    pub window: u64,
    /// The time of the last event that no signal was delivered for yet.
    pub pending: Option<u64>,
}

/// What a watcher is told: an event that counts, or the time.
#[derive(Debug, PartialEq, Eq, Clone, Copy, Structural)]
pub enum Input {
    /// An event that counts was seen at this time.
    Event(u64),
    /// It is this time now.
    Tick(u64),
}

impl Input {
    /// The time of the input.
    pub open spec fn time(self) -> u64 {
        match self {
            Input::Event(at) => at,
            Input::Tick(at) => at,
        }
    }
}

impl Debouncer {
    /// A watcher that has seen nothing.
    pub open spec fn spec_new(window: u64) -> Debouncer {
        Debouncer { window, pending: None }
    }

    /// The signal for the pending event is due at `now`.
    pub open spec fn spec_due(self, now: u64) -> bool {
        match self.pending {
            Some(last) => now >= last && now - last >= self.window,
            None => false,
        }
    }

    /// The state after `input`.
    pub open spec fn spec_after(self, input: Input) -> Debouncer {
        match input {
            Input::Event(at) => Debouncer { pending: Some(at), ..self },
            Input::Tick(at) => if self.spec_due(at) {
                Debouncer { pending: None, ..self }
            } else {
                self
            },
        }
    }

    /// A signal is delivered on `input`.
    pub open spec fn spec_signals(self, input: Input) -> bool {
        self.spec_due(input.time())
    }

    /// When the pending signal falls due, should no event come before;
    /// `None` while nothing is pending.
    pub open spec fn spec_deadline(self) -> Option<u64> {
        match self.pending {
            Some(last) => Some(
                if last + self.window > u64::MAX {
                    u64::MAX
                } else {
                    (last + self.window) as u64
                },
            ),
            None => None,
        }
    }

    /// A watcher that has seen nothing.
    pub fn new(window: u64) -> (r: Debouncer)
        ensures
            r == Debouncer::spec_new(window),
    {
        Debouncer { window, pending: None }
    }

    /// Is the signal for the pending event due at `now`?
    #[verifier::when_used_as_spec(spec_due)]
    pub fn due(self, now: u64) -> (r: bool)
        ensures
            r == self.spec_due(now),
    {
        match self.pending {
            Some(last) => now >= last && now - last >= self.window,
            None => false,
        }
    }

    /// When the pending signal falls due.
    #[verifier::when_used_as_spec(spec_deadline)]
    pub fn deadline(self) -> (r: Option<u64>)
        ensures
            r == self.spec_deadline(),
    {
        match self.pending {
            Some(last) => Some(
                if last > u64::MAX - self.window {
                    u64::MAX
                } else {
                    last + self.window
                },
            ),
            None => None,
        }
    }

    /// Takes in an event that counts, seen at `now`. Returns whether a signal
    /// is delivered: the one for the events before it, where their window had
    /// passed already.
    pub fn event(&mut self, now: u64) -> (signal: bool)
        ensures
            *final(self) == old(self).spec_after(Input::Event(now)),
            signal == old(self).spec_signals(Input::Event(now)),
    {
        let signal = self.due(now);
        self.pending = Some(now);
        signal
    }

    /// Takes in that it is `now`. Returns whether a signal is delivered: the
    /// one for the pending event, where its window has passed.
    pub fn tick(&mut self, now: u64) -> (signal: bool)
        ensures
            *final(self) == old(self).spec_after(Input::Tick(now)),
            signal == old(self).spec_signals(Input::Tick(now)),
    {
        let signal = self.due(now);
        if signal {
            self.pending = None;
        }
        signal
    }

    /// Takes in an input.
    pub fn feed(&mut self, input: Input) -> (signal: bool)
        ensures
            *final(self) == old(self).spec_after(input),
            signal == old(self).spec_signals(input),
    {
        match input {
            Input::Event(at) => self.event(at),
            Input::Tick(at) => self.tick(at),
        }
    }

    /// Takes in a change of the file system, seen at `now`. One that does not
    /// count changes nothing and delivers nothing; one that counts is taken
    /// in as an event.
    pub fn observe(
        &mut self,
        change: &WatchEvent,
        now: u64,
        output_dir: &FsPath,
        cache_dir: &FsPath,
    ) -> (signal: bool)
        ensures
            !change.spec_counts(output_dir@, cache_dir@) ==> !signal && *final(self) == *old(
                self,
            ),
            change.spec_counts(output_dir@, cache_dir@) ==> signal == old(self).spec_signals(
                Input::Event(now),
            ) && *final(self) == old(self).spec_after(Input::Event(now)),
    {
        if change.is_relevant(output_dir, cache_dir) {
            self.event(now)
        } else {
            false
        }
    }
}

} // verus!
