//! What a configuration must offer to pass through the pipeline.
//!
//! The pipeline never looks at a configuration's concrete type. A build
//! configuration says where the output goes and whether a profiling build is
//! asked for; a serve configuration adds the address to bind and hands out the
//! build configuration that belongs to it. An application may pass its own
//! types in place of the default ones, as long as its serve configuration
//! names its build configuration in `Build`.

use vstd::prelude::*;
use vstd::string::*;
use crate::path::FsPath;
use crate::project::ProjectContext;
use crate::text::{decimal, decimal_text};

verus! {

/// A build configuration.
pub trait BuildArgs {
    /// The output directory.
    spec fn spec_build_path(&self, ctx: &ProjectContext) -> Seq<Seq<char>>;

    /// Whether a profiling build is asked for.
    spec fn spec_profiling(&self) -> bool;

    /// The output directory.
    fn build_path(&self, ctx: &ProjectContext) -> (r: FsPath)
        ensures
            r@ == self.spec_build_path(ctx),
    ;

    /// Whether a profiling build is asked for: optimized, with debug
    /// information.
    fn profiling(&self) -> (r: bool)
        ensures
            r == self.spec_profiling(),
    ;
}

/// A serve configuration.
pub trait ServeArgs {
    /// The build configuration that goes with it.
    type Build: BuildArgs;

    /// Whether requests are logged.
    spec fn spec_log(&self) -> bool;

    /// The address to bind.
    spec fn spec_ip(&self) -> Seq<char>;

    /// The port to bind.
    spec fn spec_port(&self) -> u16;

    /// The build configuration.
    spec fn spec_build_args(&self) -> &Self::Build;

    /// Whether requests are logged.
    fn log(&self) -> (r: bool)
        ensures
            r == self.spec_log(),
    ;

    /// The address to bind.
    fn ip(&self) -> (r: &str)
        ensures
            r@ == self.spec_ip(),
    ;

    /// The port to bind.
    fn port(&self) -> (r: u16)
        ensures
            r == self.spec_port(),
    ;

    /// The build configuration.
    fn build_args(&self) -> (r: &Self::Build)
        ensures
            r == self.spec_build_args(),
    ;
}

/// The build configuration that the command line gives by default.
#[derive(Debug)]
pub struct DefaultBuildArgs {
    /// The output directory, where one was named.
    pub build_path: Option<FsPath>,
    /// Whether a profiling build is asked for.
    pub profiling: bool,
}

/// The serve configuration that the command line gives by default.
#[derive(Debug)]
pub struct DefaultServeArgs {
    /// Whether requests are logged.
    pub log: bool,
    /// The address to bind.
    pub ip: String,
    /// The port to bind.
    pub port: u16,
    /// The build configuration.
    pub build_args: DefaultBuildArgs,
}

impl BuildArgs for DefaultBuildArgs {
    open spec fn spec_build_path(&self, ctx: &ProjectContext) -> Seq<Seq<char>> {
        match self.build_path {
            Some(path) => path@,
            None => ctx.spec_default_build_path(),
        }
    }

    open spec fn spec_profiling(&self) -> bool {
        self.profiling
    }

    fn build_path(&self, ctx: &ProjectContext) -> (r: FsPath) {
        match &self.build_path {
            Some(path) => path.clone(),
            None => ctx.default_build_path().clone(),
        }
    }

    fn profiling(&self) -> (r: bool) {
        self.profiling
    }
}

impl ServeArgs for DefaultServeArgs {
    type Build = DefaultBuildArgs;

    open spec fn spec_log(&self) -> bool {
        self.log
    }

    open spec fn spec_ip(&self) -> Seq<char> {
        self.ip@
    }

    open spec fn spec_port(&self) -> u16 {
        self.port
    }

    open spec fn spec_build_args(&self) -> &DefaultBuildArgs {
        &self.build_args
    }

    fn log(&self) -> (r: bool) {
        self.log
    }

    fn ip(&self) -> (r: &str) {
        self.ip.as_str()
    }

    fn port(&self) -> (r: u16) {
        self.port
    }

    fn build_args(&self) -> (r: &DefaultBuildArgs) {
        &self.build_args
    }
}

impl DefaultBuildArgs {
    /// The configuration of a command line without options: the default
    /// output directory, no profiling.
    pub fn new() -> (r: DefaultBuildArgs)
        ensures
            r.build_path is None,
            !r.profiling,
    {
        DefaultBuildArgs { build_path: None, profiling: false }
    }
}

impl DefaultServeArgs {
    /// The configuration of a command line without options: no logging,
    /// `127.0.0.1`, port 3000, and the build configuration without options.
    pub fn new() -> (r: DefaultServeArgs)
        ensures
            !r.log,
            r.ip@ == "127.0.0.1"@,
            r.port == 3000,
            r.build_args.build_path is None,
            !r.build_args.profiling,
    {
        DefaultServeArgs {
            log: false,
            ip: String::from_str("127.0.0.1"),
            port: 3000,
            build_args: DefaultBuildArgs::new(),
        }
    }
}

/// The address that the development server listens on: the address to bind, a
/// colon, and the port in decimal.
pub fn listen_address<S: ServeArgs>(args: &S) -> (r: String)
    ensures
        r@ == args.spec_ip() + seq![':'] + decimal(args.spec_port() as nat),
{
    proof {
        reveal_strlit(":");
    }
    let port = decimal_text(args.port() as u64);
    let r = String::from_str(args.ip()).concat(":").concat(port.as_str());
    assert(":"@ =~= seq![':']);
    r
}

} // verus!
