//! The extension points of the pipeline and which of them are overridden.
//!
//! Each hook has a documented default. An embedding application may replace
//! any subset of them; a replaced hook runs instead of its default, never
//! beside it. The callbacks themselves live with the caller: this module only
//! records, per hook, which of the two is to run.

use vstd::prelude::*;
use vstd::string::*;
use crate::text::same_text;

verus! {

/// What stands behind one extension point.
#[derive(Debug, PartialEq, Eq, Clone, Copy, Structural)]
pub enum Hook {
    /// The documented default.
    Default,
    /// The callback that the embedding application registered.
    Custom,
}

/// The extension points.
#[derive(Debug, PartialEq, Eq, Clone, Copy, Structural)]
pub enum HookName {
    /// Runs before the compiler; may change the compiler's invocation.
    PreBuild,
    /// Runs after the binary is generated and optimized.
    PostBuild,
    /// Sets up the development server.
    Serve,
    /// Registers the paths watched for the frontend.
    FrontendWatch,
    /// Registers the paths watched for the backend.
    BackendWatch,
    /// Builds the command that starts the backend.
    BackendCommand,
}

/// A mistake in how the hooks or arguments were declared.
#[derive(Debug, PartialEq, Eq, Clone, Copy, Structural)]
pub enum ConfigError {
    /// The name is none of the recognized ones.
    InvalidName,
    /// The name was given before.
    DuplicateName,
}

/// What is said of a mistake in a declaration.
pub open spec fn config_error_text(error: ConfigError) -> Seq<char> {
    match error {
        ConfigError::InvalidName => "invalid argument"@,
        ConfigError::DuplicateName => "duplicate argument"@,
    }
}

impl ConfigError {
    /// What is said of the error.
    pub fn message(&self) -> (r: &'static str)
        ensures
            r@ == config_error_text(*self),
    {
        match self {
            ConfigError::InvalidName => "invalid argument",
            ConfigError::DuplicateName => "duplicate argument",
        }
    }
}

/// Which callback runs at each extension point.
#[derive(Debug, PartialEq, Eq, Clone, Copy, Structural)]
pub struct Hooks {
    /// Before the compiler runs. The default does nothing.
    pub pre_build: Hook,
    /// After the binary is generated and optimized. The default writes the
    /// artifacts to the output directory.
    pub post_build: Hook,
    /// Before the development server starts. The default serves the output
    /// directory.
    pub serve: Hook,
    /// Before the frontend is watched. The default watches the frontend unit
    /// and its dependencies within the workspace.
    pub frontend_watch: Hook,
    /// Before the backend is watched. The default watches the backend unit
    /// and its dependencies within the workspace.
    pub backend_watch: Hook,
    /// Before the backend is started. The default runs the backend unit.
    pub backend_command: Hook,
}

/// The hook that a name of the declaration stands for.
pub open spec fn hook_named(name: Seq<char>) -> Option<HookName> {
    if name == "pre_build"@ {
        Some(HookName::PreBuild)
    } else if name == "post_build"@ {
        Some(HookName::PostBuild)
    } else if name == "serve"@ {
        Some(HookName::Serve)
    } else if name == "frontend_watch"@ {
        Some(HookName::FrontendWatch)
    } else if name == "backend_watch"@ {
        Some(HookName::BackendWatch)
    } else if name == "backend_command"@ {
        Some(HookName::BackendCommand)
    } else {
        None
    }
}

impl HookName {
    /// The hook that `name` stands for; `None` for any other text.
    pub fn parse(name: &str) -> (r: Option<HookName>)
        ensures
            r == hook_named(name@),
    {
        if same_text(name, "pre_build") {
            Some(HookName::PreBuild)
        } else if same_text(name, "post_build") {
            Some(HookName::PostBuild)
        } else if same_text(name, "serve") {
            Some(HookName::Serve)
        } else if same_text(name, "frontend_watch") {
            Some(HookName::FrontendWatch)
        } else if same_text(name, "backend_watch") {
            Some(HookName::BackendWatch)
        } else if same_text(name, "backend_command") {
            Some(HookName::BackendCommand)
        } else {
            None
        }
    }
}

impl Hooks {
    /// What runs at the extension point `name`.
    pub open spec fn spec_get(self, name: HookName) -> Hook {
        match name {
            HookName::PreBuild => self.pre_build,
            HookName::PostBuild => self.post_build,
            HookName::Serve => self.serve,
            HookName::FrontendWatch => self.frontend_watch,
            HookName::BackendWatch => self.backend_watch,
            HookName::BackendCommand => self.backend_command,
        }
    }

    /// These hooks with the one at `name` set to `hook`.
    pub open spec fn spec_set(self, name: HookName, hook: Hook) -> Hooks {
        match name {
            HookName::PreBuild => Hooks { pre_build: hook, ..self },
            HookName::PostBuild => Hooks { post_build: hook, ..self },
            HookName::Serve => Hooks { serve: hook, ..self },
            HookName::FrontendWatch => Hooks { frontend_watch: hook, ..self },
            HookName::BackendWatch => Hooks { backend_watch: hook, ..self },
            HookName::BackendCommand => Hooks { backend_command: hook, ..self },
        }
    }

    /// Every extension point at its default.
    pub open spec fn spec_default() -> Hooks {
        Hooks {
            pre_build: Hook::Default,
            post_build: Hook::Default,
            serve: Hook::Default,
            frontend_watch: Hook::Default,
            backend_watch: Hook::Default,
            backend_command: Hook::Default,
        }
    }

    /// What runs at the extension point `name`.
    #[verifier::when_used_as_spec(spec_get)]
    pub fn get(self, name: HookName) -> (r: Hook)
        ensures
            r == self.spec_get(name),
    {
        match name {
            HookName::PreBuild => self.pre_build,
            HookName::PostBuild => self.post_build,
            HookName::Serve => self.serve,
            HookName::FrontendWatch => self.frontend_watch,
            HookName::BackendWatch => self.backend_watch,
            HookName::BackendCommand => self.backend_command,
        }
    }

    /// Replaces the default at `name` by the application's callback. A hook
    /// that was replaced before is refused, and nothing changes.
    pub fn replace(&mut self, name: HookName) -> (r: Result<(), ConfigError>)
        ensures
            old(self).spec_get(name) == Hook::Default ==> r is Ok && *final(self) == old(
                self,
            ).spec_set(name, Hook::Custom),
            old(self).spec_get(name) == Hook::Custom ==> r == Err::<(), ConfigError>(
                ConfigError::DuplicateName,
            ) && *final(self) == *old(self),
    {
        if self.get(name) == Hook::Custom {
            return Err(ConfigError::DuplicateName);
        }
        match name {
            HookName::PreBuild => {
                self.pre_build = Hook::Custom;
            },
            HookName::PostBuild => {
                self.post_build = Hook::Custom;
            },
            HookName::Serve => {
                self.serve = Hook::Custom;
            },
            HookName::FrontendWatch => {
                self.frontend_watch = Hook::Custom;
            },
            HookName::BackendWatch => {
                self.backend_watch = Hook::Custom;
            },
            HookName::BackendCommand => {
                self.backend_command = Hook::Custom;
            },
        }
        Ok(())
    }

    /// Replaces the default of the hook that `name` stands for. A name that
    /// stands for no hook, or for one that was replaced before, is refused,
    /// and nothing changes.
    pub fn register(&mut self, name: &str) -> (r: Result<HookName, ConfigError>)
        ensures
            match hook_named(name@) {
                None => r == Err::<HookName, ConfigError>(ConfigError::InvalidName) && *final(self)
                    == *old(self),
                Some(hook) => if old(self).spec_get(hook) == Hook::Custom {
                    r == Err::<HookName, ConfigError>(ConfigError::DuplicateName) && *final(self)
                        == *old(self)
                } else {
                    r == Ok::<HookName, ConfigError>(hook) && *final(self) == old(self).spec_set(
                        hook,
                        Hook::Custom,
                    )
                },
            },
    {
        match HookName::parse(name) {
            None => Err(ConfigError::InvalidName),
            Some(hook) => match self.replace(hook) {
                Ok(()) => Ok(hook),
                Err(e) => Err(e),
            },
        }
    }
}

impl Default for Hooks {
    fn default() -> (r: Hooks)
        ensures
            r == Hooks::spec_default(),
    {
        Hooks {
            pre_build: Hook::Default,
            post_build: Hook::Default,
            serve: Hook::Default,
            frontend_watch: Hook::Default,
            backend_watch: Hook::Default,
            backend_command: Hook::Default,
        }
    }
}

/// Replacing one hook leaves every other hook as it was, and the replaced one
/// no longer runs its default.
pub proof fn lemma_replace_is_local(hooks: Hooks, name: HookName, other: HookName)
    ensures
        hooks.spec_set(name, Hook::Custom).spec_get(name) == Hook::Custom,
        other != name ==> hooks.spec_set(name, Hook::Custom).spec_get(other) == hooks.spec_get(
            other,
        ),
{
}

} // verus!
