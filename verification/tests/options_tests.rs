use macige::options::{AppPlatform, BuildType, ParseError, Platform, PublishingFormat, Sdk};

#[test]
fn display_labels_are_canonical() {
    assert_eq!(AppPlatform::Android.display(), "Android");
    assert_eq!(Platform::GitHub.display(), "GitHub Actions");
    assert_eq!(Sdk::Native.display(), "Native App");
    assert_eq!(Sdk::Flutter.display(), "Flutter");
    assert_eq!(Sdk::ReactNative.display(), "React Native");
    assert_eq!(BuildType::Unsigned.display(), "Debug (unsigned)");
    assert_eq!(BuildType::Signed.display(), "Release (signed)");
    assert_eq!(PublishingFormat::Apk.display(), "APK");
    assert_eq!(PublishingFormat::Aab.display(), "AAB");
}

#[test]
fn extension_is_lowercase_token() {
    assert_eq!(PublishingFormat::Apk.extension(), "apk");
    assert_eq!(PublishingFormat::Aab.extension(), "aab");
}

#[test]
fn parse_display_roundtrip_app_platform() {
    for v in AppPlatform::variants() {
        assert_eq!(AppPlatform::parse(&v.display()), Ok(v));
    }
}

#[test]
fn parse_display_roundtrip_platform() {
    for v in Platform::variants() {
        assert_eq!(Platform::parse(&v.display()), Ok(v));
    }
}

#[test]
fn parse_display_roundtrip_sdk() {
    for v in Sdk::variants() {
        assert_eq!(Sdk::parse(&v.display()), Ok(v));
    }
}

#[test]
fn parse_display_roundtrip_build_type() {
    for v in BuildType::variants() {
        assert_eq!(BuildType::parse(&v.display()), Ok(v));
    }
}

#[test]
fn parse_display_roundtrip_publishing_format() {
    for v in PublishingFormat::variants() {
        assert_eq!(PublishingFormat::parse(&v.display()), Ok(v));
    }
}

#[test]
fn parse_rejects_unknown_labels() {
    assert_eq!(Platform::parse("CircleCI"), Err(ParseError::VariantNotFound));
    assert_eq!(Sdk::parse("native app"), Err(ParseError::VariantNotFound));
    assert_eq!(Sdk::parse(""), Err(ParseError::VariantNotFound));
    assert_eq!(BuildType::parse("Signed"), Err(ParseError::VariantNotFound));
    assert_eq!(
        PublishingFormat::parse("apk"),
        Err(ParseError::VariantNotFound)
    );
}

#[test]
fn variants_list_every_member_once() {
    assert_eq!(AppPlatform::variants(), vec![AppPlatform::Android]);
    assert_eq!(Platform::variants(), vec![Platform::GitHub]);
    assert_eq!(
        Sdk::variants(),
        vec![Sdk::Native, Sdk::Flutter, Sdk::ReactNative]
    );
    assert_eq!(
        BuildType::variants(),
        vec![BuildType::Unsigned, BuildType::Signed]
    );
    assert_eq!(
        PublishingFormat::variants(),
        vec![PublishingFormat::Apk, PublishingFormat::Aab]
    );
}
