//! The fixed catalog: one workflow template per supported
//! (provider, SDK, signing mode) triple, plus an info template for the signed
//! entries. Resolving a triple outside the catalog is an explicit error,
//! never a default.

use vstd::prelude::*;

use crate::options::{BuildType, Platform, Sdk};
use crate::render::{chunk_text, contains_text, render_text, Binds, Chunk};
use crate::render::{
    lemma_render_contains_chunk, lemma_render_contains_three, lemma_render_ignores_variant_name,
};

verus! {

broadcast use vstd::string::group_string_axioms;

/// Raised when no catalog entry exists for the requested triple. The session
/// state stays editable; nothing is rendered.
#[derive(Clone, Copy, Debug, PartialEq, Eq, Structural)]
pub struct UnsupportedCombination;

pub const WF_NAME: &'static str = "name: ";

pub const WF_ON: &'static str = "\n\non:\n  workflow_dispatch:";

pub const WF_VERSION_INPUTS: &'static str =
    "\n    inputs:\n      versionName:\n        description: Version name\n        required: true\n      versionCode:\n        description: Version code\n        required: true";

pub const WF_NATIVE_SIGNED_STEPS: &'static str =
    "\n\njobs:\n  build:\n    runs-on: ubuntu-latest\n    steps:\n      - uses: actions/checkout@v4\n      - uses: actions/setup-java@v4\n        with:\n          distribution: temurin\n          java-version: \"17\"\n      - name: Decode the release keystore\n        run: echo \"$ANDROID_KEYSTORE\" | base64 --decode > app/keystore.jks\n        env:\n          ANDROID_KEYSTORE: ${{ secrets.ANDROID_KEYSTORE }}\n      - name: Build the ";

pub const WF_NATIVE_UNSIGNED_STEPS: &'static str =
    "\n\njobs:\n  build:\n    runs-on: ubuntu-latest\n    steps:\n      - uses: actions/checkout@v4\n      - uses: actions/setup-java@v4\n        with:\n          distribution: temurin\n          java-version: \"17\"\n      - name: Build the ";

pub const WF_RN_SIGNED_STEPS: &'static str =
    "\n\njobs:\n  build:\n    runs-on: ubuntu-latest\n    steps:\n      - uses: actions/checkout@v4\n      - uses: actions/setup-node@v4\n        with:\n          node-version: 18\n      - uses: actions/setup-java@v4\n        with:\n          distribution: temurin\n          java-version: \"17\"\n      - name: Fetch the JavaScript packages\n        run: npm ci\n      - name: Decode the release keystore\n        run: echo \"$ANDROID_KEYSTORE\" | base64 --decode > android/app/keystore.jks\n        env:\n          ANDROID_KEYSTORE: ${{ secrets.ANDROID_KEYSTORE }}\n      - name: Build the ";

pub const WF_RN_UNSIGNED_STEPS: &'static str =
    "\n\njobs:\n  build:\n    runs-on: ubuntu-latest\n    steps:\n      - uses: actions/checkout@v4\n      - uses: actions/setup-node@v4\n        with:\n          node-version: 18\n      - uses: actions/setup-java@v4\n        with:\n          distribution: temurin\n          java-version: \"17\"\n      - name: Fetch the JavaScript packages\n        run: npm ci\n      - name: Build the ";

pub const WF_FLUTTER_SIGNED_STEPS: &'static str =
    "\n\njobs:\n  build:\n    runs-on: ubuntu-latest\n    steps:\n      - uses: actions/checkout@v4\n      - uses: actions/setup-java@v4\n        with:\n          distribution: temurin\n          java-version: \"17\"\n      - uses: subosito/flutter-action@v2\n        with:\n          channel: stable\n      - name: Decode the release keystore\n        run: echo \"$ANDROID_KEYSTORE\" | base64 --decode > android/app/keystore.jks\n        env:\n          ANDROID_KEYSTORE: ${{ secrets.ANDROID_KEYSTORE }}\n      - name: Build the application\n        run: flutter build ";

pub const WF_FLUTTER_UNSIGNED_STEPS: &'static str =
    "\n\njobs:\n  build:\n    runs-on: ubuntu-latest\n    steps:\n      - uses: actions/checkout@v4\n      - uses: actions/setup-java@v4\n        with:\n          distribution: temurin\n          java-version: \"17\"\n      - uses: subosito/flutter-action@v2\n        with:\n          channel: stable\n      - name: Build the application\n        run: flutter build ";

pub const WF_GRADLE_BUILD: &'static str = " variant\n        run: ./gradlew assemble";

pub const WF_RN_GRADLE_BUILD: &'static str = " variant\n        run: cd android && ./gradlew assemble";

pub const WF_FLUTTER_SIGNED_FLAG: &'static str = " --release\n      - name: Upload the ";

pub const WF_FLUTTER_UNSIGNED_FLAG: &'static str = " --debug\n      - name: Upload the ";

pub const WF_UPLOAD: &'static str = "\n      - name: Upload the ";

pub const WF_NATIVE_ARTIFACT: &'static str =
    "\n        uses: actions/upload-artifact@v4\n        with:\n          name: android-build\n          path: app/build/outputs/";

pub const WF_RN_ARTIFACT: &'static str =
    "\n        uses: actions/upload-artifact@v4\n        with:\n          name: android-build\n          path: android/app/build/outputs/";

pub const WF_FLUTTER_ARTIFACT: &'static str =
    "\n        uses: actions/upload-artifact@v4\n        with:\n          name: android-build\n          path: build/app/outputs/";

pub const WF_DOT: &'static str = ".";

pub const WF_END: &'static str = "\n";

pub const INFO_HEAD: &'static str = "<h3>Heads up!</h3>";

pub const INFO_NATIVE_BODY: &'static str =
    "<p>This workflow signs the build with your release keystore. Store the keystore file (base64 encoded) and its passwords as repository secrets, and point your Gradle signing config at them before running it.</p>";

pub const INFO_FLUTTER_BODY: &'static str =
    "<p>This workflow signs the build with your release keystore. Store the keystore file (base64 encoded) and its passwords as repository secrets, and reference them from android/key.properties before running it.</p>";

pub const INFO_RN_BODY: &'static str =
    "<p>This workflow signs the build with your release keystore. Store the keystore file (base64 encoded) and its passwords as repository secrets, and point the Gradle config under android/ at them before running it.</p>";

pub const INFO_VERSIONS: &'static str =
    "<p>When started, the workflow asks for a version name and a version code and stamps them into the build.</p>";

pub const INFO_TAIL: &'static str =
    "<p>Save the file under .github/workflows/ in your repository to turn it on.</p>";

/// The abstract content of one catalog entry: its title, its workflow
/// template, and its info template when one exists.
pub ghost struct EntryModel {
    pub title: Seq<char>,
    pub code: Seq<Chunk>,
    pub info: Option<Seq<Chunk>>,
}

/// The workflow template of the native signed entry.
pub open spec fn native_signed_code() -> Seq<Chunk> {
    seq![
        Chunk::Lit(WF_NAME),
        Chunk::Title,
        Chunk::Lit(WF_ON),
        Chunk::Versions(WF_VERSION_INPUTS),
        Chunk::Lit(WF_NATIVE_SIGNED_STEPS),
        Chunk::VariantName,
        Chunk::Lit(WF_GRADLE_BUILD),
        Chunk::VariantName,
        Chunk::Lit(WF_UPLOAD),
        Chunk::FormatLabel,
        Chunk::Lit(WF_NATIVE_ARTIFACT),
        Chunk::VariantPath,
        Chunk::Lit(WF_DOT),
        Chunk::FormatExt,
        Chunk::Lit(WF_END),
    ]
}

/// The workflow template of the native unsigned entry.
pub open spec fn native_unsigned_code() -> Seq<Chunk> {
    seq![
        Chunk::Lit(WF_NAME),
        Chunk::Title,
        Chunk::Lit(WF_ON),
        Chunk::Versions(WF_VERSION_INPUTS),
        Chunk::Lit(WF_NATIVE_UNSIGNED_STEPS),
        Chunk::VariantName,
        Chunk::Lit(WF_GRADLE_BUILD),
        Chunk::VariantName,
        Chunk::Lit(WF_UPLOAD),
        Chunk::FormatLabel,
        Chunk::Lit(WF_NATIVE_ARTIFACT),
        Chunk::VariantPath,
        Chunk::Lit(WF_DOT),
        Chunk::FormatExt,
        Chunk::Lit(WF_END),
    ]
}

/// The workflow template of the React Native signed entry.
pub open spec fn react_native_signed_code() -> Seq<Chunk> {
    seq![
        Chunk::Lit(WF_NAME),
        Chunk::Title,
        Chunk::Lit(WF_ON),
        Chunk::Versions(WF_VERSION_INPUTS),
        Chunk::Lit(WF_RN_SIGNED_STEPS),
        Chunk::VariantName,
        Chunk::Lit(WF_RN_GRADLE_BUILD),
        Chunk::VariantName,
        Chunk::Lit(WF_UPLOAD),
        Chunk::FormatLabel,
        Chunk::Lit(WF_RN_ARTIFACT),
        Chunk::VariantPath,
        Chunk::Lit(WF_DOT),
        Chunk::FormatExt,
        Chunk::Lit(WF_END),
    ]
}

/// The workflow template of the React Native unsigned entry.
pub open spec fn react_native_unsigned_code() -> Seq<Chunk> {
    seq![
        Chunk::Lit(WF_NAME),
        Chunk::Title,
        Chunk::Lit(WF_ON),
        Chunk::Versions(WF_VERSION_INPUTS),
        Chunk::Lit(WF_RN_UNSIGNED_STEPS),
        Chunk::VariantName,
        Chunk::Lit(WF_RN_GRADLE_BUILD),
        Chunk::VariantName,
        Chunk::Lit(WF_UPLOAD),
        Chunk::FormatLabel,
        Chunk::Lit(WF_RN_ARTIFACT),
        Chunk::VariantPath,
        Chunk::Lit(WF_DOT),
        Chunk::FormatExt,
        Chunk::Lit(WF_END),
    ]
}

/// The workflow template of the Flutter signed entry. Flutter builds carry no
/// variant name, so the template has no variant-name chunk.
pub open spec fn flutter_signed_code() -> Seq<Chunk> {
    seq![
        Chunk::Lit(WF_NAME),
        Chunk::Title,
        Chunk::Lit(WF_ON),
        Chunk::Versions(WF_VERSION_INPUTS),
        Chunk::Lit(WF_FLUTTER_SIGNED_STEPS),
        Chunk::FormatExt,
        Chunk::Lit(WF_FLUTTER_SIGNED_FLAG),
        Chunk::FormatLabel,
        Chunk::Lit(WF_FLUTTER_ARTIFACT),
        Chunk::VariantPath,
        Chunk::Lit(WF_DOT),
        Chunk::FormatExt,
        Chunk::Lit(WF_END),
    ]
}

/// The workflow template of the Flutter unsigned entry. Flutter builds carry
/// no variant name, so the template has no variant-name chunk.
pub open spec fn flutter_unsigned_code() -> Seq<Chunk> {
    seq![
        Chunk::Lit(WF_NAME),
        Chunk::Title,
        Chunk::Lit(WF_ON),
        Chunk::Versions(WF_VERSION_INPUTS),
        Chunk::Lit(WF_FLUTTER_UNSIGNED_STEPS),
        Chunk::FormatExt,
        Chunk::Lit(WF_FLUTTER_UNSIGNED_FLAG),
        Chunk::FormatLabel,
        Chunk::Lit(WF_FLUTTER_ARTIFACT),
        Chunk::VariantPath,
        Chunk::Lit(WF_DOT),
        Chunk::FormatExt,
        Chunk::Lit(WF_END),
    ]
}

/// The info template of the native signed entry.
pub open spec fn native_info() -> Seq<Chunk> {
    seq![
        Chunk::Lit(INFO_HEAD),
        Chunk::Lit(INFO_NATIVE_BODY),
        Chunk::Versions(INFO_VERSIONS),
        Chunk::Lit(INFO_TAIL),
    ]
}

/// The info template of the Flutter signed entry.
pub open spec fn flutter_info() -> Seq<Chunk> {
    seq![
        Chunk::Lit(INFO_HEAD),
        Chunk::Lit(INFO_FLUTTER_BODY),
        Chunk::Versions(INFO_VERSIONS),
        Chunk::Lit(INFO_TAIL),
    ]
}

/// The info template of the React Native signed entry.
pub open spec fn react_native_info() -> Seq<Chunk> {
    seq![
        Chunk::Lit(INFO_HEAD),
        Chunk::Lit(INFO_RN_BODY),
        Chunk::Versions(INFO_VERSIONS),
        Chunk::Lit(INFO_TAIL),
    ]
}

/// The catalog: the entry of each modeled triple, and nothing for any other
/// triple. Only signed entries carry an info template.
pub open spec fn spec_resolve(p: Platform, s: Sdk, b: BuildType) -> Option<EntryModel> {
    match (p, s, b) {
        (Platform::GitHub, Sdk::Native, BuildType::Signed) => Some(
            EntryModel {
                title: "Android release build"@,
                code: native_signed_code(),
                info: Some(native_info()),
            },
        ),
        (Platform::GitHub, Sdk::Flutter, BuildType::Signed) => Some(
            EntryModel {
                title: "Flutter Android release build"@,
                code: flutter_signed_code(),
                info: Some(flutter_info()),
            },
        ),
        (Platform::GitHub, Sdk::ReactNative, BuildType::Signed) => Some(
            EntryModel {
                title: "React Native Android release build"@,
                code: react_native_signed_code(),
                info: Some(react_native_info()),
            },
        ),
        (Platform::GitHub, Sdk::Native, BuildType::Unsigned) => Some(
            EntryModel {
                title: "Android debug build"@,
                code: native_unsigned_code(),
                info: None,
            },
        ),
        (Platform::GitHub, Sdk::Flutter, BuildType::Unsigned) => Some(
            EntryModel {
                title: "Flutter Android debug build"@,
                code: flutter_unsigned_code(),
                info: None,
            },
        ),
        (Platform::GitHub, Sdk::ReactNative, BuildType::Unsigned) => Some(
            EntryModel {
                title: "React Native Android debug build"@,
                code: react_native_unsigned_code(),
                info: None,
            },
        ),
    }
}

/// The title of a triple's entry; empty for a triple outside the catalog.
pub open spec fn title_of(p: Platform, s: Sdk, b: BuildType) -> Seq<char> {
    match spec_resolve(p, s, b) {
        Some(m) => m.title,
        None => Seq::<char>::empty(),
    }
}

/// The workflow template of a triple's entry; empty for a triple outside the
/// catalog.
pub open spec fn code_of(p: Platform, s: Sdk, b: BuildType) -> Seq<Chunk> {
    match spec_resolve(p, s, b) {
        Some(m) => m.code,
        None => Seq::<Chunk>::empty(),
    }
}

/// The info template of a triple's entry, when the entry has one.
pub open spec fn info_of(p: Platform, s: Sdk, b: BuildType) -> Option<Seq<Chunk>> {
    match spec_resolve(p, s, b) {
        Some(m) => m.info,
        None => None,
    }
}

/// Every triple over the current closed sets has a catalog entry.
pub proof fn lemma_catalog_total(p: Platform, s: Sdk, b: BuildType)
    ensures
        spec_resolve(p, s, b) is Some,
{
    match (p, s, b) {
        (Platform::GitHub, Sdk::Native, BuildType::Signed) => {
        },
        (Platform::GitHub, Sdk::Flutter, BuildType::Signed) => {
        },
        (Platform::GitHub, Sdk::ReactNative, BuildType::Signed) => {
        },
        (Platform::GitHub, Sdk::Native, BuildType::Unsigned) => {
        },
        (Platform::GitHub, Sdk::Flutter, BuildType::Unsigned) => {
        },
        (Platform::GitHub, Sdk::ReactNative, BuildType::Unsigned) => {
        },
    }
}

/// One resolved catalog entry, ready to render.
pub struct CatalogEntry {
    pub title: &'static str,
    pub code_chunks: Vec<Chunk>,
    pub info_chunks: Option<Vec<Chunk>>,
}

impl CatalogEntry {
    /// The info template's chunks, when the entry has an info template.
    pub open spec fn info_view(&self) -> Option<Seq<Chunk>> {
        match self.info_chunks {
            Some(v) => Some(v@),
            None => None,
        }
    }

    /// The entry holds exactly the model's title and templates.
    pub open spec fn matches_model(&self, m: EntryModel) -> bool {
        &&& self.title@ == m.title
        &&& self.code_chunks@ == m.code
        &&& self.info_view() == m.info
    }
}

/// Looks the triple up in the catalog: the entry when the triple is modeled,
/// the explicit error otherwise — never a default.
pub fn resolve(p: Platform, s: Sdk, b: BuildType) -> (r: Result<
    CatalogEntry,
    UnsupportedCombination,
>)
    ensures
        r is Ok <==> spec_resolve(p, s, b) is Some,
        r matches Ok(e) ==> spec_resolve(p, s, b) matches Some(m) && e.matches_model(m),
{
    match (p, s, b) {
        (Platform::GitHub, Sdk::Native, BuildType::Signed) => {
            let code_chunks = vec![
                Chunk::Lit(WF_NAME),
                Chunk::Title,
                Chunk::Lit(WF_ON),
                Chunk::Versions(WF_VERSION_INPUTS),
                Chunk::Lit(WF_NATIVE_SIGNED_STEPS),
                Chunk::VariantName,
                Chunk::Lit(WF_GRADLE_BUILD),
                Chunk::VariantName,
                Chunk::Lit(WF_UPLOAD),
                Chunk::FormatLabel,
                Chunk::Lit(WF_NATIVE_ARTIFACT),
                Chunk::VariantPath,
                Chunk::Lit(WF_DOT),
                Chunk::FormatExt,
                Chunk::Lit(WF_END),
            ];
            let info_chunks = vec![
                Chunk::Lit(INFO_HEAD),
                Chunk::Lit(INFO_NATIVE_BODY),
                Chunk::Versions(INFO_VERSIONS),
                Chunk::Lit(INFO_TAIL),
            ];
            proof {
                assert(code_chunks@ =~= native_signed_code());
                assert(info_chunks@ =~= native_info());
            }
            Ok(
                CatalogEntry {
                    title: "Android release build",
                    code_chunks,
                    info_chunks: Some(info_chunks),
                },
            )
        },
        (Platform::GitHub, Sdk::Flutter, BuildType::Signed) => {
            let code_chunks = vec![
                Chunk::Lit(WF_NAME),
                Chunk::Title,
                Chunk::Lit(WF_ON),
                Chunk::Versions(WF_VERSION_INPUTS),
                Chunk::Lit(WF_FLUTTER_SIGNED_STEPS),
                Chunk::FormatExt,
                Chunk::Lit(WF_FLUTTER_SIGNED_FLAG),
                Chunk::FormatLabel,
                Chunk::Lit(WF_FLUTTER_ARTIFACT),
                Chunk::VariantPath,
                Chunk::Lit(WF_DOT),
                Chunk::FormatExt,
                Chunk::Lit(WF_END),
            ];
            let info_chunks = vec![
                Chunk::Lit(INFO_HEAD),
                Chunk::Lit(INFO_FLUTTER_BODY),
                Chunk::Versions(INFO_VERSIONS),
                Chunk::Lit(INFO_TAIL),
            ];
            proof {
                assert(code_chunks@ =~= flutter_signed_code());
                assert(info_chunks@ =~= flutter_info());
            }
            Ok(
                CatalogEntry {
                    title: "Flutter Android release build",
                    code_chunks,
                    info_chunks: Some(info_chunks),
                },
            )
        },
        (Platform::GitHub, Sdk::ReactNative, BuildType::Signed) => {
            let code_chunks = vec![
                Chunk::Lit(WF_NAME),
                Chunk::Title,
                Chunk::Lit(WF_ON),
                Chunk::Versions(WF_VERSION_INPUTS),
                Chunk::Lit(WF_RN_SIGNED_STEPS),
                Chunk::VariantName,
                Chunk::Lit(WF_RN_GRADLE_BUILD),
                Chunk::VariantName,
                Chunk::Lit(WF_UPLOAD),
                Chunk::FormatLabel,
                Chunk::Lit(WF_RN_ARTIFACT),
                Chunk::VariantPath,
                Chunk::Lit(WF_DOT),
                Chunk::FormatExt,
                Chunk::Lit(WF_END),
            ];
            let info_chunks = vec![
                Chunk::Lit(INFO_HEAD),
                Chunk::Lit(INFO_RN_BODY),
                Chunk::Versions(INFO_VERSIONS),
                Chunk::Lit(INFO_TAIL),
            ];
            proof {
                assert(code_chunks@ =~= react_native_signed_code());
                assert(info_chunks@ =~= react_native_info());
            }
            Ok(
                CatalogEntry {
                    title: "React Native Android release build",
                    code_chunks,
                    info_chunks: Some(info_chunks),
                },
            )
        },
        (Platform::GitHub, Sdk::Native, BuildType::Unsigned) => {
            let code_chunks = vec![
                Chunk::Lit(WF_NAME),
                Chunk::Title,
                Chunk::Lit(WF_ON),
                Chunk::Versions(WF_VERSION_INPUTS),
                Chunk::Lit(WF_NATIVE_UNSIGNED_STEPS),
                Chunk::VariantName,
                Chunk::Lit(WF_GRADLE_BUILD),
                Chunk::VariantName,
                Chunk::Lit(WF_UPLOAD),
                Chunk::FormatLabel,
                Chunk::Lit(WF_NATIVE_ARTIFACT),
                Chunk::VariantPath,
                Chunk::Lit(WF_DOT),
                Chunk::FormatExt,
                Chunk::Lit(WF_END),
            ];
            proof {
                assert(code_chunks@ =~= native_unsigned_code());
            }
            Ok(
                CatalogEntry {
                    title: "Android debug build",
                    code_chunks,
                    info_chunks: None,
                },
            )
        },
        (Platform::GitHub, Sdk::Flutter, BuildType::Unsigned) => {
            let code_chunks = vec![
                Chunk::Lit(WF_NAME),
                Chunk::Title,
                Chunk::Lit(WF_ON),
                Chunk::Versions(WF_VERSION_INPUTS),
                Chunk::Lit(WF_FLUTTER_UNSIGNED_STEPS),
                Chunk::FormatExt,
                Chunk::Lit(WF_FLUTTER_UNSIGNED_FLAG),
                Chunk::FormatLabel,
                Chunk::Lit(WF_FLUTTER_ARTIFACT),
                Chunk::VariantPath,
                Chunk::Lit(WF_DOT),
                Chunk::FormatExt,
                Chunk::Lit(WF_END),
            ];
            proof {
                assert(code_chunks@ =~= flutter_unsigned_code());
            }
            Ok(
                CatalogEntry {
                    title: "Flutter Android debug build",
                    code_chunks,
                    info_chunks: None,
                },
            )
        },
        (Platform::GitHub, Sdk::ReactNative, BuildType::Unsigned) => {
            let code_chunks = vec![
                Chunk::Lit(WF_NAME),
                Chunk::Title,
                Chunk::Lit(WF_ON),
                Chunk::Versions(WF_VERSION_INPUTS),
                Chunk::Lit(WF_RN_UNSIGNED_STEPS),
                Chunk::VariantName,
                Chunk::Lit(WF_RN_GRADLE_BUILD),
                Chunk::VariantName,
                Chunk::Lit(WF_UPLOAD),
                Chunk::FormatLabel,
                Chunk::Lit(WF_RN_ARTIFACT),
                Chunk::VariantPath,
                Chunk::Lit(WF_DOT),
                Chunk::FormatExt,
                Chunk::Lit(WF_END),
            ];
            proof {
                assert(code_chunks@ =~= react_native_unsigned_code());
            }
            Ok(
                CatalogEntry {
                    title: "React Native Android debug build",
                    code_chunks,
                    info_chunks: None,
                },
            )
        },
    }
}

/// In a template whose chunks put the title at `ti` and the artifact file
/// (path, dot, extension) at `pi`, the rendered text carries both.
proof fn lemma_markers_at(cs: Seq<Chunk>, b: Binds, ti: int, pi: int)
    requires
        0 <= ti < cs.len(),
        cs[ti] == Chunk::Title,
        0 <= pi,
        pi + 3 <= cs.len(),
        cs[pi] == Chunk::VariantPath,
        cs[pi + 1] == Chunk::Lit(WF_DOT),
        cs[pi + 2] == Chunk::FormatExt,
    ensures
        contains_text(render_text(cs, b), b.title),
        contains_text(render_text(cs, b), b.variant_path + "."@ + b.format.ext()),
{
    lemma_render_contains_chunk(cs, b, ti);
    lemma_render_contains_three(cs, b, pi);
    assert(chunk_text(cs[pi + 1], b) == "."@);
}

/// Every triple resolves, and the workflow text rendered from its entry
/// carries the entry's title and the artifact file name: the variant path,
/// a dot, and the lowercase publishing-format token.
pub proof fn lemma_code_contains_markers(p: Platform, s: Sdk, bt: BuildType, b: Binds)
    requires
        b.title == title_of(p, s, bt),
    ensures
        spec_resolve(p, s, bt) is Some,
        contains_text(render_text(code_of(p, s, bt), b), title_of(p, s, bt)),
        contains_text(render_text(code_of(p, s, bt), b), b.variant_path + "."@ + b.format.ext()),
{
    lemma_catalog_total(p, s, bt);
    match (p, s, bt) {
        (Platform::GitHub, Sdk::Native, BuildType::Signed) => {
            lemma_markers_at(code_of(p, s, bt), b, 1, 11);
        },
        (Platform::GitHub, Sdk::Flutter, BuildType::Signed) => {
            lemma_markers_at(code_of(p, s, bt), b, 1, 9);
        },
        (Platform::GitHub, Sdk::ReactNative, BuildType::Signed) => {
            lemma_markers_at(code_of(p, s, bt), b, 1, 11);
        },
        (Platform::GitHub, Sdk::Native, BuildType::Unsigned) => {
            lemma_markers_at(code_of(p, s, bt), b, 1, 11);
        },
        (Platform::GitHub, Sdk::Flutter, BuildType::Unsigned) => {
            lemma_markers_at(code_of(p, s, bt), b, 1, 9);
        },
        (Platform::GitHub, Sdk::ReactNative, BuildType::Unsigned) => {
            lemma_markers_at(code_of(p, s, bt), b, 1, 11);
        },
    }
}

/// Flutter workflow templates never read the variant name: the rendered text
/// is the same under bindings that differ only in that field.
pub proof fn lemma_flutter_code_ignores_variant_name(bt: BuildType, b1: Binds, b2: Binds)
    requires
        b1.title == b2.title,
        b1.format == b2.format,
        b1.variant_path == b2.variant_path,
        b1.show_versions == b2.show_versions,
    ensures
        render_text(code_of(Platform::GitHub, Sdk::Flutter, bt), b1) == render_text(
            code_of(Platform::GitHub, Sdk::Flutter, bt),
            b2,
        ),
{
    let cs = code_of(Platform::GitHub, Sdk::Flutter, bt);
    match bt {
        BuildType::Signed => {
            assert(forall|i: int| 0 <= i < cs.len() ==> !(#[trigger] cs[i] is VariantName));
        },
        BuildType::Unsigned => {
            assert(forall|i: int| 0 <= i < cs.len() ==> !(#[trigger] cs[i] is VariantName));
        },
    }
    lemma_render_ignores_variant_name(cs, b1, b2);
}

/// Signed entries have an info template whose rendered text is never empty;
/// unsigned entries have none.
pub proof fn lemma_info_presence(p: Platform, s: Sdk, b: Binds)
    ensures
        info_of(p, s, BuildType::Signed) is Some,
        render_text(info_of(p, s, BuildType::Signed)->0, b).len() > 0,
        info_of(p, s, BuildType::Unsigned) is None,
{
    reveal_strlit("<h3>Heads up!</h3>");
    let ic = info_of(p, s, BuildType::Signed)->0;
    match s {
        Sdk::Native => {
            assert(ic[0] == Chunk::Lit(INFO_HEAD));
        },
        Sdk::Flutter => {
            assert(ic[0] == Chunk::Lit(INFO_HEAD));
        },
        Sdk::ReactNative => {
            assert(ic[0] == Chunk::Lit(INFO_HEAD));
        },
    }
    assert(render_text(ic, b) == chunk_text(ic[0], b) + render_text(ic.drop_first(), b));
    assert(chunk_text(ic[0], b).len() == 18);
}

} // verus!
