//! Build profiles and what each of them asks of the toolchain.

use vstd::prelude::*;
use vstd::string::*;

verus! {

/// A build profile for the WebAssembly binary.
#[derive(Debug, PartialEq, Eq, Clone, Copy, Structural)]
pub enum BuildProfile {
    /// Development: neither optimized nor stripped.
    Dev,
    /// Release: optimized, debug information stripped.
    Release,
    /// Profiling: compiled as a release, debug information kept.
    Profiling,
}

/// How the optimizer is asked to work on a binary.
#[derive(Debug, PartialEq, Eq, Clone, Copy, Structural)]
pub struct OptimizerConfig {
    /// How hard to shrink the binary.
    pub shrink_level: u32,
    /// How hard to optimize for speed.
    pub optimization_level: u32,
    /// Whether debug information survives.
    pub debug_info: bool,
}

/// How style sheets are written out.
#[derive(Debug, PartialEq, Eq, Clone, Copy, Structural)]
pub enum OutputStyle {
    /// Rules indented to show their nesting.
    Nested,
    /// One declaration per line.
    Expanded,
    /// One rule per line.
    Compact,
    /// Without any white space that can be spared.
    Compressed,
}

impl BuildProfile {
    /// The profile that a build runs under: `Profiling` where the profiling
    /// flag is set, else the requested one.
    pub open spec fn spec_effective(self, profiling: bool) -> BuildProfile {
        if profiling {
            BuildProfile::Profiling
        } else {
            self
        }
    }

    /// The compiler is asked for a release build.
    pub open spec fn spec_is_release(self) -> bool {
        self != BuildProfile::Dev
    }

    /// Debug information is kept in the generated bindings.
    pub open spec fn spec_keeps_debug_info(self) -> bool {
        self != BuildProfile::Release
    }

    /// The optimizer's settings; `None` where the optimizer is skipped.
    pub open spec fn spec_optimizer_config(self) -> Option<OptimizerConfig> {
        match self {
            BuildProfile::Dev => None,
            BuildProfile::Release => Some(
                OptimizerConfig { shrink_level: 1, optimization_level: 2, debug_info: false },
            ),
            BuildProfile::Profiling => Some(
                OptimizerConfig { shrink_level: 0, optimization_level: 2, debug_info: true },
            ),
        }
    }

    /// The profile that a build runs under.
    #[verifier::when_used_as_spec(spec_effective)]
    pub fn effective(self, profiling: bool) -> (r: BuildProfile)
        ensures
            r == self.spec_effective(profiling),
    {
        if profiling {
            BuildProfile::Profiling
        } else {
            self
        }
    }

    /// Is the compiler asked for a release build?
    #[verifier::when_used_as_spec(spec_is_release)]
    pub fn is_release(self) -> (r: bool)
        ensures
            r == self.spec_is_release(),
    {
        match self {
            BuildProfile::Dev => false,
            BuildProfile::Release => true,
            BuildProfile::Profiling => true,
        }
    }

    /// Is debug information kept in the generated bindings?
    #[verifier::when_used_as_spec(spec_keeps_debug_info)]
    pub fn keeps_debug_info(self) -> (r: bool)
        ensures
            r == self.spec_keeps_debug_info(),
    {
        match self {
            BuildProfile::Dev => true,
            BuildProfile::Release => false,
            BuildProfile::Profiling => true,
        }
    }

    /// The optimizer's settings for this profile.
    #[verifier::when_used_as_spec(spec_optimizer_config)]
    pub fn optimizer_config(self) -> (r: Option<OptimizerConfig>)
        ensures
            r == self.spec_optimizer_config(),
    {
        match self {
            BuildProfile::Dev => None,
            BuildProfile::Release => Some(
                OptimizerConfig { shrink_level: 1, optimization_level: 2, debug_info: false },
            ),
            BuildProfile::Profiling => Some(
                OptimizerConfig { shrink_level: 0, optimization_level: 2, debug_info: true },
            ),
        }
    }

    /// The directory of the compiler's output that holds this profile's
    /// artifacts: `release` or `debug`.
    pub fn artifact_dir(self) -> (r: &'static str)
        ensures
            r@ == (if self.spec_is_release() {
                "release"@
            } else {
                "debug"@
            }),
    {
        match self {
            BuildProfile::Dev => "debug",
            BuildProfile::Release => "release",
            BuildProfile::Profiling => "release",
        }
    }

    /// How style sheets are written out under this profile.
    pub fn sass_output_style(self) -> (r: OutputStyle)
        ensures
            r == (if self.spec_is_release() {
                OutputStyle::Compressed
            } else {
                OutputStyle::Nested
            }),
    {
        match self {
            BuildProfile::Dev => OutputStyle::Nested,
            BuildProfile::Release => OutputStyle::Compressed,
            BuildProfile::Profiling => OutputStyle::Compressed,
        }
    }
}

/// The profiling flag upgrades and never downgrades: with it every profile
/// becomes `Profiling`, without it every profile stays what it was, and
/// resolving twice changes nothing.
pub proof fn lemma_profiling_only_upgrades(profile: BuildProfile, profiling: bool)
    ensures
        profile.spec_effective(true) == BuildProfile::Profiling,
        profile.spec_effective(false) == profile,
        profile.spec_effective(profiling).spec_effective(profiling) == profile.spec_effective(
            profiling,
        ),
        profile.spec_is_release() ==> profile.spec_effective(profiling).spec_is_release(),
{
}

} // verus!
