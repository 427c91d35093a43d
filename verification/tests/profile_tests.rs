use wasmbl::profile::{BuildProfile, OptimizerConfig, OutputStyle};

#[test]
fn profiling_flag_upgrades_every_profile() {
    assert_eq!(BuildProfile::Dev.effective(true), BuildProfile::Profiling);
    assert_eq!(BuildProfile::Release.effective(true), BuildProfile::Profiling);
    assert_eq!(BuildProfile::Profiling.effective(true), BuildProfile::Profiling);
}

#[test]
fn without_profiling_flag_the_profile_stays() {
    assert_eq!(BuildProfile::Dev.effective(false), BuildProfile::Dev);
    assert_eq!(BuildProfile::Release.effective(false), BuildProfile::Release);
    assert_eq!(BuildProfile::Profiling.effective(false), BuildProfile::Profiling);
}

#[test]
fn release_and_profiling_compile_for_release() {
    assert!(!BuildProfile::Dev.is_release());
    assert!(BuildProfile::Release.is_release());
    assert!(BuildProfile::Profiling.is_release());
    assert_eq!(BuildProfile::Dev.artifact_dir(), "debug");
    assert_eq!(BuildProfile::Release.artifact_dir(), "release");
    assert_eq!(BuildProfile::Profiling.artifact_dir(), "release");
}

#[test]
fn only_a_plain_release_strips_debug_information() {
    assert!(BuildProfile::Dev.keeps_debug_info());
    assert!(!BuildProfile::Release.keeps_debug_info());
    assert!(BuildProfile::Profiling.keeps_debug_info());
}

#[test]
fn optimizer_settings_per_profile() {
    assert_eq!(BuildProfile::Dev.optimizer_config(), None);
    assert_eq!(
        BuildProfile::Release.optimizer_config(),
        Some(OptimizerConfig { shrink_level: 1, optimization_level: 2, debug_info: false })
    );
    assert_eq!(
        BuildProfile::Profiling.optimizer_config(),
        Some(OptimizerConfig { shrink_level: 0, optimization_level: 2, debug_info: true })
    );
}

#[test]
fn style_output_per_profile() {
    assert_eq!(BuildProfile::Dev.sass_output_style(), OutputStyle::Nested);
    assert_eq!(BuildProfile::Release.sass_output_style(), OutputStyle::Compressed);
    assert_eq!(BuildProfile::Profiling.sass_output_style(), OutputStyle::Compressed);
}
