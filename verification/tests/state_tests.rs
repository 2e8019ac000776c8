use macige::options::{AppPlatform, BuildType, ParseError, Platform, PublishingFormat, Sdk};
use macige::state::State;

#[test]
fn new_session_has_fixed_defaults() {
    let s = State::new();
    assert_eq!(s.app_platform, AppPlatform::Android);
    assert_eq!(s.platform, Platform::GitHub);
    assert_eq!(s.sdk, Sdk::Native);
    assert_eq!(s.build_type, BuildType::Unsigned);
    assert_eq!(s.custom_inputs.build_variant_name.as_deref(), Some("Debug"));
    assert_eq!(
        s.custom_inputs.build_variant_path.as_deref(),
        Some("debug/app-debug")
    );
    assert_eq!(s.custom_inputs.publishing_format, PublishingFormat::Apk);
    assert!(!s.custom_inputs.show_versions);
    assert!(s.code_template.is_none());
    assert!(s.info_template.is_none());
}

#[test]
fn signing_mode_transition_applies_defaults() {
    let mut s = State::new();
    assert!(s.update_build_type("Release (signed)").is_ok());
    assert_eq!(
        s.custom_inputs.build_variant_name.as_deref(),
        Some("Release")
    );
    assert_eq!(
        s.custom_inputs.build_variant_path.as_deref(),
        Some("release/app-prod-release")
    );
    assert!(s.update_build_type("Debug (unsigned)").is_ok());
    assert_eq!(s.custom_inputs.build_variant_name.as_deref(), Some("Debug"));
    assert_eq!(
        s.custom_inputs.build_variant_path.as_deref(),
        Some("debug/app-debug")
    );
}

#[test]
fn explicit_variant_overrides_survive_until_mode_changes() {
    let mut s = State::new();
    s.update_build_variant_name("Nightly".to_string());
    s.update_build_variant_path("nightly/app-nightly".to_string());
    assert_eq!(
        s.custom_inputs.build_variant_name.as_deref(),
        Some("Nightly")
    );
    assert!(s.update_build_type("Release (signed)").is_ok());
    assert_eq!(
        s.custom_inputs.build_variant_name.as_deref(),
        Some("Release")
    );
}

fn assert_stale(s: &State) {
    assert_eq!(s.code_template.as_deref(), Some(""));
    assert!(s.info_template.is_none());
}

#[test]
fn every_update_clears_generated_outputs() {
    let mut s = State::new();
    assert!(s.gen_templates().is_ok());
    assert_ne!(s.code_template.as_deref(), Some(""));

    s.update_build_variant_name("X".to_string());
    assert_stale(&s);

    assert!(s.gen_templates().is_ok());
    s.update_build_variant_path("y/z".to_string());
    assert_stale(&s);

    assert!(s.gen_templates().is_ok());
    assert!(s.update_sdk("Flutter").is_ok());
    assert_stale(&s);

    assert!(s.gen_templates().is_ok());
    assert!(s.update_build_type("Release (signed)").is_ok());
    assert_stale(&s);

    assert!(s.gen_templates().is_ok());
    assert!(s.update_publishing_format("AAB").is_ok());
    assert_stale(&s);

    assert!(s.gen_templates().is_ok());
    assert!(s.update_platform("GitHub Actions").is_ok());
    assert_stale(&s);

    assert!(s.gen_templates().is_ok());
    s.update_show_versions(true);
    assert_stale(&s);
}

#[test]
fn failed_update_leaves_state_untouched() {
    let mut s = State::new();
    assert!(s.gen_templates().is_ok());
    let code_before = s.code_template.clone();
    assert_eq!(s.update_sdk("Cordova"), Err(ParseError::VariantNotFound));
    assert_eq!(s.sdk, Sdk::Native);
    assert_eq!(s.code_template, code_before);
    assert_eq!(
        s.update_build_type("signed"),
        Err(ParseError::VariantNotFound)
    );
    assert_eq!(s.build_type, BuildType::Unsigned);
    assert_eq!(s.custom_inputs.build_variant_name.as_deref(), Some("Debug"));
}

#[test]
fn generating_twice_yields_identical_text() {
    let mut s = State::new();
    assert!(s.update_sdk("React Native").is_ok());
    assert!(s.update_build_type("Release (signed)").is_ok());
    s.update_show_versions(true);
    assert!(s.gen_templates().is_ok());
    let code1 = s.code_template.clone().unwrap();
    let info1 = s.info_template.clone().unwrap();
    assert!(s.gen_templates().is_ok());
    assert_eq!(s.code_template.as_deref(), Some(code1.as_str()));
    assert_eq!(s.info_template.as_deref(), Some(info1.as_str()));
    assert!(!code1.is_empty());
    assert!(!info1.is_empty());
}

#[test]
fn clear_text_resets_both_outputs() {
    let mut s = State::new();
    assert!(s.gen_templates().is_ok());
    assert_ne!(s.code_template.as_deref(), Some(""));
    s.clear_text();
    assert_eq!(s.code_template.as_deref(), Some(""));
    assert!(s.info_template.is_none());
}
