//! The closed option sets a session can choose from, each with a canonical
//! display label and a parse-from-label operation that rejects unknown text.

use vstd::prelude::*;

verus! {

broadcast use vstd::string::group_string_axioms;

/// Raised when a label does not name any member of the enumeration it is
/// parsed against. The state the caller holds is left untouched.
#[derive(Clone, Copy, Debug, PartialEq, Eq, Structural)]
pub enum ParseError {
    VariantNotFound,
}

/// The mobile platform the generated build targets. A single member today;
/// kept as its own closed set so the catalog key shape is stable.
#[derive(Clone, Copy, Debug, PartialEq, Eq, Structural)]
pub enum AppPlatform {
    Android,
}

/// The CI system the generated workflow runs on.
#[derive(Clone, Copy, Debug, PartialEq, Eq, Structural)]
pub enum Platform {
    GitHub,
}

/// The application toolkit the build uses.
#[derive(Clone, Copy, Debug, PartialEq, Eq, Structural)]
pub enum Sdk {
    Native,
    Flutter,
    ReactNative,
}

/// Whether the workflow produces a signed release or an unsigned debug build.
#[derive(Clone, Copy, Debug, PartialEq, Eq, Structural)]
pub enum BuildType {
    Unsigned,
    Signed,
}

/// The packaged artifact kind the workflow uploads.
#[derive(Clone, Copy, Debug, PartialEq, Eq, Structural)]
pub enum PublishingFormat {
    Apk,
    Aab,
}

/// Equality of two string slices, stated over their character sequences.
fn str_eq(a: &str, b: &str) -> (r: bool)
    ensures
        r == (a@ == b@),
{
    let a1: String = a.to_owned();
    let b1: String = b.to_owned();
    a1 == b1
}

impl AppPlatform {
    /// The canonical display label of this member.
    pub open spec fn label(self) -> Seq<char> {
        match self {
            AppPlatform::Android => "Android"@,
        }
    }

    /// The member whose label is `s`, if any.
    pub open spec fn from_label(s: Seq<char>) -> Option<AppPlatform> {
        if s == AppPlatform::Android.label() {
            Some(AppPlatform::Android)
        } else {
            None
        }
    }

    pub fn display(self) -> (r: String)
        ensures
            r@ == self.label(),
    {
        match self {
            AppPlatform::Android => "Android".to_owned(),
        }
    }

    pub fn parse(s: &str) -> (r: Result<AppPlatform, ParseError>)
        ensures
            r is Ok <==> AppPlatform::from_label(s@) is Some,
            r matches Ok(v) ==> AppPlatform::from_label(s@) == Some(v),
    {
        if str_eq(s, "Android") {
            Ok(AppPlatform::Android)
        } else {
            Err(ParseError::VariantNotFound)
        }
    }

    /// All members, in display order.
    pub fn variants() -> (v: Vec<AppPlatform>)
        ensures
            v@ == seq![AppPlatform::Android],
    {
        let v = vec![AppPlatform::Android];
        proof {
            assert(v@ =~= seq![AppPlatform::Android]);
        }
        v
    }
}

/// Every label names exactly one member: parsing a displayed label gives the
/// member back.
pub proof fn lemma_app_platform_label_roundtrip(v: AppPlatform)
    ensures
        AppPlatform::from_label(v.label()) == Some(v),
{
}

impl Platform {
    /// The canonical display label of this member.
    pub open spec fn label(self) -> Seq<char> {
        match self {
            Platform::GitHub => "GitHub Actions"@,
        }
    }

    /// The member whose label is `s`, if any.
    pub open spec fn from_label(s: Seq<char>) -> Option<Platform> {
        if s == Platform::GitHub.label() {
            Some(Platform::GitHub)
        } else {
            None
        }
    }

    pub fn display(self) -> (r: String)
        ensures
            r@ == self.label(),
    {
        match self {
            Platform::GitHub => "GitHub Actions".to_owned(),
        }
    }

    pub fn parse(s: &str) -> (r: Result<Platform, ParseError>)
        ensures
            r is Ok <==> Platform::from_label(s@) is Some,
            r matches Ok(v) ==> Platform::from_label(s@) == Some(v),
    {
        if str_eq(s, "GitHub Actions") {
            Ok(Platform::GitHub)
        } else {
            Err(ParseError::VariantNotFound)
        }
    }

    /// All members, in display order.
    pub fn variants() -> (v: Vec<Platform>)
        ensures
            v@ == seq![Platform::GitHub],
    {
        let v = vec![Platform::GitHub];
        proof {
            assert(v@ =~= seq![Platform::GitHub]);
        }
        v
    }
}

/// Every label names exactly one member: parsing a displayed label gives the
/// member back.
pub proof fn lemma_platform_label_roundtrip(v: Platform)
    ensures
        Platform::from_label(v.label()) == Some(v),
{
}

impl Sdk {
    /// The canonical display label of this member.
    pub open spec fn label(self) -> Seq<char> {
        match self {
            Sdk::Native => "Native App"@,
            Sdk::Flutter => "Flutter"@,
            Sdk::ReactNative => "React Native"@,
        }
    }

    /// The member whose label is `s`, if any.
    pub open spec fn from_label(s: Seq<char>) -> Option<Sdk> {
        if s == Sdk::Native.label() {
            Some(Sdk::Native)
        } else if s == Sdk::Flutter.label() {
            Some(Sdk::Flutter)
        } else if s == Sdk::ReactNative.label() {
            Some(Sdk::ReactNative)
        } else {
            None
        }
    }

    pub fn display(self) -> (r: String)
        ensures
            r@ == self.label(),
    {
        match self {
            Sdk::Native => "Native App".to_owned(),
            Sdk::Flutter => "Flutter".to_owned(),
            Sdk::ReactNative => "React Native".to_owned(),
        }
    }

    pub fn parse(s: &str) -> (r: Result<Sdk, ParseError>)
        ensures
            r is Ok <==> Sdk::from_label(s@) is Some,
            r matches Ok(v) ==> Sdk::from_label(s@) == Some(v),
    {
        if str_eq(s, "Native App") {
            Ok(Sdk::Native)
        } else if str_eq(s, "Flutter") {
            Ok(Sdk::Flutter)
        } else if str_eq(s, "React Native") {
            Ok(Sdk::ReactNative)
        } else {
            Err(ParseError::VariantNotFound)
        }
    }

    /// All members, in display order.
    pub fn variants() -> (v: Vec<Sdk>)
        ensures
            v@ == seq![Sdk::Native, Sdk::Flutter, Sdk::ReactNative],
    {
        let v = vec![Sdk::Native, Sdk::Flutter, Sdk::ReactNative];
        proof {
            assert(v@ =~= seq![Sdk::Native, Sdk::Flutter, Sdk::ReactNative]);
        }
        v
    }
}

/// Every label names exactly one member: parsing a displayed label gives the
/// member back.
pub proof fn lemma_sdk_label_roundtrip(v: Sdk)
    ensures
        Sdk::from_label(v.label()) == Some(v),
{
    reveal_strlit("Native App");
    reveal_strlit("Flutter");
    reveal_strlit("React Native");
    match v {
        Sdk::Native => {
        },
        Sdk::Flutter => {
            assert("Flutter"@ != "Native App"@) by {
                assert("Flutter"@.len() == 7);
                assert("Native App"@.len() == 10);
            }
        },
        Sdk::ReactNative => {
            assert("React Native"@ != "Native App"@) by {
                assert("React Native"@.len() == 12);
                assert("Native App"@.len() == 10);
            }
            assert("React Native"@ != "Flutter"@) by {
                assert("React Native"@.len() == 12);
                assert("Flutter"@.len() == 7);
            }
        },
    }
}

impl BuildType {
    /// The canonical display label of this member.
    pub open spec fn label(self) -> Seq<char> {
        match self {
            BuildType::Unsigned => "Debug (unsigned)"@,
            BuildType::Signed => "Release (signed)"@,
        }
    }

    /// The member whose label is `s`, if any.
    pub open spec fn from_label(s: Seq<char>) -> Option<BuildType> {
        if s == BuildType::Unsigned.label() {
            Some(BuildType::Unsigned)
        } else if s == BuildType::Signed.label() {
            Some(BuildType::Signed)
        } else {
            None
        }
    }

    pub fn display(self) -> (r: String)
        ensures
            r@ == self.label(),
    {
        match self {
            BuildType::Unsigned => "Debug (unsigned)".to_owned(),
            BuildType::Signed => "Release (signed)".to_owned(),
        }
    }

    pub fn parse(s: &str) -> (r: Result<BuildType, ParseError>)
        ensures
            r is Ok <==> BuildType::from_label(s@) is Some,
            r matches Ok(v) ==> BuildType::from_label(s@) == Some(v),
    {
        if str_eq(s, "Debug (unsigned)") {
            Ok(BuildType::Unsigned)
        } else if str_eq(s, "Release (signed)") {
            Ok(BuildType::Signed)
        } else {
            Err(ParseError::VariantNotFound)
        }
    }

    /// All members, in display order.
    pub fn variants() -> (v: Vec<BuildType>)
        ensures
            v@ == seq![BuildType::Unsigned, BuildType::Signed],
    {
        let v = vec![BuildType::Unsigned, BuildType::Signed];
        proof {
            assert(v@ =~= seq![BuildType::Unsigned, BuildType::Signed]);
        }
        v
    }
}

/// Every label names exactly one member: parsing a displayed label gives the
/// member back.
pub proof fn lemma_build_type_label_roundtrip(v: BuildType)
    ensures
        BuildType::from_label(v.label()) == Some(v),
{
    reveal_strlit("Debug (unsigned)");
    reveal_strlit("Release (signed)");
    match v {
        BuildType::Unsigned => {
        },
        BuildType::Signed => {
            assert("Release (signed)"@ != "Debug (unsigned)"@) by {
                assert("Release (signed)"@[0] == 'R');
                assert("Debug (unsigned)"@[0] == 'D');
            }
        },
    }
}

impl PublishingFormat {
    /// The canonical display label of this member.
    pub open spec fn label(self) -> Seq<char> {
        match self {
            PublishingFormat::Apk => "APK"@,
            PublishingFormat::Aab => "AAB"@,
        }
    }

    /// The lowercase file-extension token of this member.
    pub open spec fn ext(self) -> Seq<char> {
        match self {
            PublishingFormat::Apk => "apk"@,
            PublishingFormat::Aab => "aab"@,
        }
    }

    /// The member whose label is `s`, if any.
    pub open spec fn from_label(s: Seq<char>) -> Option<PublishingFormat> {
        if s == PublishingFormat::Apk.label() {
            Some(PublishingFormat::Apk)
        } else if s == PublishingFormat::Aab.label() {
            Some(PublishingFormat::Aab)
        } else {
            None
        }
    }

    pub fn display(self) -> (r: String)
        ensures
            r@ == self.label(),
    {
        match self {
            PublishingFormat::Apk => "APK".to_owned(),
            PublishingFormat::Aab => "AAB".to_owned(),
        }
    }

    /// The extension used when the artifact file name is spelled out.
    pub fn extension(self) -> (r: String)
        ensures
            r@ == self.ext(),
    {
        match self {
            PublishingFormat::Apk => "apk".to_owned(),
            PublishingFormat::Aab => "aab".to_owned(),
        }
    }

    pub fn parse(s: &str) -> (r: Result<PublishingFormat, ParseError>)
        ensures
            r is Ok <==> PublishingFormat::from_label(s@) is Some,
            r matches Ok(v) ==> PublishingFormat::from_label(s@) == Some(v),
    {
        if str_eq(s, "APK") {
            Ok(PublishingFormat::Apk)
        } else if str_eq(s, "AAB") {
            Ok(PublishingFormat::Aab)
        } else {
            Err(ParseError::VariantNotFound)
        }
    }

    /// All members, in display order.
    pub fn variants() -> (v: Vec<PublishingFormat>)
        ensures
            v@ == seq![PublishingFormat::Apk, PublishingFormat::Aab],
    {
        let v = vec![PublishingFormat::Apk, PublishingFormat::Aab];
        proof {
            assert(v@ =~= seq![PublishingFormat::Apk, PublishingFormat::Aab]);
        }
        v
    }
}

/// Every label names exactly one member: parsing a displayed label gives the
/// member back.
pub proof fn lemma_publishing_format_label_roundtrip(v: PublishingFormat)
    ensures
        PublishingFormat::from_label(v.label()) == Some(v),
{
    reveal_strlit("APK");
    reveal_strlit("AAB");
    match v {
        PublishingFormat::Apk => {
        },
        PublishingFormat::Aab => {
            assert("AAB"@ != "APK"@) by {
                assert("AAB"@[1] == 'A');
                assert("APK"@[1] == 'P');
            }
        },
    }
}

} // verus!
