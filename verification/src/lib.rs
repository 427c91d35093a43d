//! Build-and-development orchestration for an application that is compiled to
//! WebAssembly: the decisions of the build pipeline, of the file watcher and of
//! the development loop, stated as contracts and proved.
//!
//! The library touches neither the file system nor a process nor the
//! network. Its state machines say what is to be done next; a caller does it
//! and reports back what happened. Paths, packages and events are plain
//! values of the library's own.
//!
//! - `pipeline`, `build_laws`: one build, step by step, and what holds of
//!   every build.
//! - `watch`, `watch_laws`: which changes count, how bursts of them become
//!   signals, and what holds of every watcher.
//! - `devloop`: the initial build, then serving and watching.
//! - `hooks`, `defaults`, `styles`: the extension points and their defaults.
//! - `project`, `args`, `commands`: the project's context, the
//!   configurations, and the two commands.
//! - `cli`, `setup`: an application's declaration and the setup it gives.
//! - `bundler`, `environment`: bundling an application for publishing, and
//!   the environment that its packer runs in.
//! - `toolchain`, `child`, `retry`, `profile`, `path`, `text`: what the
//!   others are built from.
//!
//! A few values come from other libraries: a random pause, another
//! library's default options, the names of the platform. Each such call
//! stands in a small private function whose comment says what is taken on
//! trust.

pub mod args;
pub mod build_laws;
pub mod bundler;
pub mod child;
pub mod cli;
pub mod commands;
pub mod defaults;
pub mod devloop;
pub mod environment;
pub mod hooks;
pub mod path;
pub mod pipeline;
pub mod profile;
pub mod project;
pub mod retry;
pub mod setup;
pub mod styles;
pub mod text;
pub mod toolchain;
pub mod watch;
pub mod watch_laws;
