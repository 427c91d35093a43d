use wasmbl::hooks::{ConfigError, Hook, HookName, Hooks};

#[test]
fn default_hooks_are_all_defaults() {
    let hooks = Hooks::default();
    for name in [
        HookName::PreBuild,
        HookName::PostBuild,
        HookName::Serve,
        HookName::FrontendWatch,
        HookName::BackendWatch,
        HookName::BackendCommand,
    ] {
        assert_eq!(hooks.get(name), Hook::Default);
    }
}

#[test]
fn replacing_one_hook_leaves_the_others() {
    let mut hooks = Hooks::default();
    assert_eq!(hooks.replace(HookName::PostBuild), Ok(()));
    assert_eq!(hooks.get(HookName::PostBuild), Hook::Custom);
    assert_eq!(hooks.post_build, Hook::Custom);
    assert_eq!(hooks.get(HookName::PreBuild), Hook::Default);
    assert_eq!(hooks.get(HookName::Serve), Hook::Default);
    assert_eq!(hooks.get(HookName::FrontendWatch), Hook::Default);
    assert_eq!(hooks.get(HookName::BackendWatch), Hook::Default);
    assert_eq!(hooks.get(HookName::BackendCommand), Hook::Default);
}

#[test]
fn replacing_a_hook_twice_is_refused() {
    let mut hooks = Hooks::default();
    hooks.replace(HookName::Serve).unwrap();
    let before = hooks;
    assert_eq!(hooks.replace(HookName::Serve), Err(ConfigError::DuplicateName));
    assert_eq!(hooks, before);
}

#[test]
fn hook_names_are_recognized() {
    assert_eq!(HookName::parse("pre_build"), Some(HookName::PreBuild));
    assert_eq!(HookName::parse("post_build"), Some(HookName::PostBuild));
    assert_eq!(HookName::parse("serve"), Some(HookName::Serve));
    assert_eq!(HookName::parse("frontend_watch"), Some(HookName::FrontendWatch));
    assert_eq!(HookName::parse("backend_watch"), Some(HookName::BackendWatch));
    assert_eq!(HookName::parse("backend_command"), Some(HookName::BackendCommand));
    assert_eq!(HookName::parse("prebuild"), None);
    assert_eq!(HookName::parse(""), None);
    assert_eq!(HookName::parse("Serve"), None);
}

#[test]
fn register_by_name() {
    let mut hooks = Hooks::default();
    assert_eq!(hooks.register("backend_command"), Ok(HookName::BackendCommand));
    assert_eq!(hooks.backend_command, Hook::Custom);
    assert_eq!(hooks.register("backend_command"), Err(ConfigError::DuplicateName));
    let before = hooks;
    assert_eq!(hooks.register("deploy"), Err(ConfigError::InvalidName));
    assert_eq!(hooks, before);
}

#[test]
fn config_errors_say_what_is_wrong() {
    assert_eq!(ConfigError::InvalidName.message(), "invalid argument");
    assert_eq!(ConfigError::DuplicateName.message(), "duplicate argument");
}
