use macige::code::Code;
use macige::highlight::HighlightOptions;
use macige::options::{BuildType, Platform, PublishingFormat, Sdk};
use macige::state::State;

fn session(sdk: &str, mode: &str, format: &str) -> State {
    let mut s = State::new();
    assert!(s.update_sdk(sdk).is_ok());
    assert!(s.update_build_type(mode).is_ok());
    assert!(s.update_publishing_format(format).is_ok());
    s
}

fn expected_title(sdk: Sdk, mode: BuildType) -> &'static str {
    match (sdk, mode) {
        (Sdk::Native, BuildType::Signed) => "Android release build",
        (Sdk::Native, BuildType::Unsigned) => "Android debug build",
        (Sdk::Flutter, BuildType::Signed) => "Flutter Android release build",
        (Sdk::Flutter, BuildType::Unsigned) => "Flutter Android debug build",
        (Sdk::ReactNative, BuildType::Signed) => "React Native Android release build",
        (Sdk::ReactNative, BuildType::Unsigned) => "React Native Android debug build",
    }
}

#[test]
fn all_six_triples_generate_title_and_artifact_path() {
    for sdk in Sdk::variants() {
        for mode in BuildType::variants() {
            for format in PublishingFormat::variants() {
                let mut s = session(&sdk.display(), &mode.display(), &format.display());
                assert!(s.gen_templates().is_ok());
                let code = s.code_template.clone().unwrap();
                assert!(code.contains(expected_title(sdk, mode)));
                let path = match mode {
                    BuildType::Signed => "release/app-prod-release",
                    BuildType::Unsigned => "debug/app-debug",
                };
                let artifact = format!("{}.{}", path, format.extension());
                assert!(code.contains(&artifact), "missing {artifact} in:\n{code}");
            }
        }
    }
}

#[test]
fn signed_aab_artifact_is_spelled_out() {
    let mut s = session("Native App", "Release (signed)", "AAB");
    assert!(s.gen_templates().is_ok());
    let code = s.code_template.clone().unwrap();
    assert!(code.contains("release/app-prod-release.aab"));
    assert!(code.contains("AAB"));
}

#[test]
fn flutter_code_omits_variant_name() {
    let mut s = session("Flutter", "Release (signed)", "APK");
    s.update_build_variant_name("ZZMARKERZZ".to_string());
    assert!(s.gen_templates().is_ok());
    let code = s.code_template.clone().unwrap();
    assert!(!code.contains("ZZMARKERZZ"));
    let info = s.info_template.clone().unwrap();
    assert!(!info.is_empty());
}

#[test]
fn native_code_carries_variant_name() {
    let mut s = session("Native App", "Release (signed)", "APK");
    s.update_build_variant_name("Staging".to_string());
    assert!(s.gen_templates().is_ok());
    let code = s.code_template.clone().unwrap();
    assert!(code.contains("assembleStaging"));
}

#[test]
fn flutter_unsigned_info_is_empty() {
    let mut s = session("Flutter", "Debug (unsigned)", "APK");
    assert!(s.gen_templates().is_ok());
    assert_eq!(s.info_template.as_deref(), Some(""));
}

#[test]
fn signed_info_is_nonempty_for_every_sdk() {
    for sdk in Sdk::variants() {
        let mut s = session(&sdk.display(), "Release (signed)", "APK");
        assert!(s.gen_templates().is_ok());
        let info = s.info_template.clone().unwrap();
        assert!(!info.is_empty());
        assert!(info.contains("keystore"));
    }
}

#[test]
fn unsigned_info_is_empty_for_every_sdk() {
    for sdk in Sdk::variants() {
        let mut s = session(&sdk.display(), "Debug (unsigned)", "APK");
        assert!(s.gen_templates().is_ok());
        assert_eq!(s.info_template.as_deref(), Some(""));
    }
}

#[test]
fn version_prompts_are_gated_by_the_flag() {
    let mut s = session("Native App", "Release (signed)", "APK");
    s.update_show_versions(true);
    assert!(s.gen_templates().is_ok());
    let code_with = s.code_template.clone().unwrap();
    let info_with = s.info_template.clone().unwrap();
    assert!(code_with.contains("versionName:"));
    assert!(code_with.contains("versionCode:"));
    assert!(info_with.contains("version name"));

    s.update_show_versions(false);
    assert!(s.gen_templates().is_ok());
    let code_without = s.code_template.clone().unwrap();
    let info_without = s.info_template.clone().unwrap();
    assert!(!code_without.contains("versionName:"));
    assert!(!info_without.contains("version name"));
}

#[test]
fn empty_variant_fields_render_as_empty_text() {
    let mut s = session("Native App", "Debug (unsigned)", "APK");
    s.update_build_variant_name(String::new());
    s.update_build_variant_path(String::new());
    assert!(s.gen_templates().is_ok());
    let code = s.code_template.clone().unwrap();
    assert!(code.contains("path: app/build/outputs/.apk"));
    assert!(code.contains("run: ./gradlew assemble\n"));
}

#[test]
fn preview_renders_with_mode_defaults() {
    let c = Code {
        platform: Platform::GitHub,
        sdk: Sdk::Native,
        build_type: BuildType::Signed,
    };
    let r = c.generate_templates();
    assert!(r.code_template.contains("Android Play Store release build"));
    assert!(r.code_template.contains("release/app-prod-release.apk"));
    assert!(!r.info_template.is_empty());
    assert!(r.info_template.contains("keystore"));
}

#[test]
fn preview_unsigned_uses_debug_defaults() {
    let c = Code {
        platform: Platform::GitHub,
        sdk: Sdk::Flutter,
        build_type: BuildType::Unsigned,
    };
    let r = c.generate_templates();
    assert!(r.code_template.contains("Android debug build"));
    assert!(r.code_template.contains("debug/app-debug.apk"));
    assert_eq!(r.info_template, "");
}

#[test]
fn preview_info_follows_the_signing_mode() {
    for sdk in Sdk::variants() {
        let signed = Code {
            platform: Platform::GitHub,
            sdk,
            build_type: BuildType::Signed,
        };
        assert!(!signed.generate_templates().info_template.is_empty());
        let unsigned = Code {
            platform: Platform::GitHub,
            sdk,
            build_type: BuildType::Unsigned,
        };
        assert_eq!(unsigned.generate_templates().info_template, "");
    }
}

#[test]
fn highlight_options_for_generated_text() {
    let h = HighlightOptions::yaml();
    assert_eq!(h.language, "yaml");
    assert!(h.ignore_illegals);
}

#[test]
fn generated_code_is_a_workflow_document() {
    let mut s = session("React Native", "Debug (unsigned)", "APK");
    assert!(s.gen_templates().is_ok());
    let code = s.code_template.clone().unwrap();
    assert!(code.starts_with("name: "));
    assert!(code.contains("workflow_dispatch"));
    assert!(code.contains("runs-on: ubuntu-latest"));
    assert!(code.ends_with('\n'));
}
