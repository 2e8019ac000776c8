//! The session state: the selected triple, the user-editable custom fields,
//! and the last generated outputs. Every field update parses its label first
//! (failure leaves the state untouched), and every successful update clears
//! the previously generated outputs before the next generation.

use vstd::prelude::*;
use vstd::string::StringExecFns;

use crate::catalog::{
    code_of, info_of, lemma_code_contains_markers, lemma_info_presence, resolve, spec_resolve,
    title_of, UnsupportedCombination,
};
use crate::options::{AppPlatform, BuildType, ParseError, Platform, PublishingFormat, Sdk};
use crate::render::{contains_text, render_chunks, render_text, Binds};

verus! {

broadcast use vstd::string::group_string_axioms;

/// The default variant name of a signing mode: the mode's conventional
/// build-variant label.
pub open spec fn default_variant_name(bt: BuildType) -> Seq<char> {
    match bt {
        BuildType::Unsigned => "Debug"@,
        BuildType::Signed => "Release"@,
    }
}

/// The default variant output path of a signing mode.
pub open spec fn default_variant_path(bt: BuildType) -> Seq<char> {
    match bt {
        BuildType::Unsigned => "debug/app-debug"@,
        BuildType::Signed => "release/app-prod-release"@,
    }
}

/// The user-editable custom fields of a session.
pub struct CustomInputs {
    pub build_variant_name: Option<String>,
    pub build_variant_path: Option<String>,
    pub publishing_format: PublishingFormat,
    pub show_versions: bool,
}

impl CustomInputs {
    /// The variant name as rendered: empty text when the field is absent.
    pub open spec fn name_text(&self) -> Seq<char> {
        match self.build_variant_name {
            Some(s) => s@,
            None => Seq::<char>::empty(),
        }
    }

    /// The variant path as rendered: empty text when the field is absent.
    pub open spec fn path_text(&self) -> Seq<char> {
        match self.build_variant_path {
            Some(s) => s@,
            None => Seq::<char>::empty(),
        }
    }
}

/// The session-scoped aggregate: the selected triple, the custom fields, and
/// the last generated outputs. The outputs are only ever non-empty right
/// after a successful generation for the current selection; every update
/// clears them.
pub struct State {
    pub app_platform: AppPlatform,
    pub platform: Platform,
    pub sdk: Sdk,
    pub build_type: BuildType,
    pub custom_inputs: CustomInputs,
    pub code_template: Option<String>,
    pub info_template: Option<String>,
}

impl State {
    /// Both output slots hold the stale/empty marker: the code slot holds
    /// empty text and the info slot is absent. (A fresh session differs: it
    /// starts with both slots absent, having never generated.)
    pub open spec fn outputs_cleared(&self) -> bool {
        &&& self.code_template.deep_view() == Some(Seq::<char>::empty())
        &&& self.info_template is None
    }

    /// The configuration fields (everything but the outputs) of the two
    /// states agree.
    pub open spec fn same_config(&self, other: &State) -> bool {
        &&& self.app_platform == other.app_platform
        &&& self.platform == other.platform
        &&& self.sdk == other.sdk
        &&& self.build_type == other.build_type
        &&& self.custom_inputs == other.custom_inputs
    }

    /// The values the templates are rendered against: the entry's title and
    /// the session's custom fields.
    pub open spec fn binds(&self) -> Binds {
        Binds {
            title: title_of(self.platform, self.sdk, self.build_type),
            format: self.custom_inputs.publishing_format,
            variant_name: self.custom_inputs.name_text(),
            variant_path: self.custom_inputs.path_text(),
            show_versions: self.custom_inputs.show_versions,
        }
    }

    /// The workflow text a generation produces for this configuration.
    pub open spec fn spec_code_text(&self) -> Seq<char> {
        render_text(code_of(self.platform, self.sdk, self.build_type), self.binds())
    }

    /// The info text a generation produces for this configuration: rendered
    /// from the entry's info template, or empty when the entry has none.
    pub open spec fn spec_info_text(&self) -> Seq<char> {
        match info_of(self.platform, self.sdk, self.build_type) {
            Some(ic) => render_text(ic, self.binds()),
            None => Seq::<char>::empty(),
        }
    }

    /// A fresh session: the fixed defaults, with nothing generated yet.
    pub fn new() -> (s: State)
        ensures
            s.app_platform == AppPlatform::Android,
            s.platform == Platform::GitHub,
            s.sdk == Sdk::Native,
            s.build_type == BuildType::Unsigned,
            s.custom_inputs.build_variant_name.deep_view() == Some(
                default_variant_name(BuildType::Unsigned),
            ),
            s.custom_inputs.build_variant_path.deep_view() == Some(
                default_variant_path(BuildType::Unsigned),
            ),
            s.custom_inputs.publishing_format == PublishingFormat::Apk,
            !s.custom_inputs.show_versions,
            s.code_template is None,
            s.info_template is None,
    {
        State {
            app_platform: AppPlatform::Android,
            platform: Platform::GitHub,
            sdk: Sdk::Native,
            build_type: BuildType::Unsigned,
            custom_inputs: CustomInputs {
                build_variant_name: Some("Debug".to_owned()),
                build_variant_path: Some("debug/app-debug".to_owned()),
                publishing_format: PublishingFormat::Apk,
                show_versions: false,
            },
            code_template: None,
            info_template: None,
        }
    }

    /// Clears both outputs to the stale/empty marker; the configuration is
    /// untouched.
    pub fn clear_text(&mut self)
        ensures
            final(self).outputs_cleared(),
            final(self).same_config(old(self)),
    {
        self.info_template = None;
        self.code_template = Some(String::new());
    }

    /// Selects the CI provider named by `label`. An unknown label fails and
    /// leaves the state untouched; success stores the provider and clears the
    /// outputs.
    pub fn update_platform(&mut self, label: &str) -> (r: Result<(), ParseError>)
        ensures
            r is Ok <==> Platform::from_label(label@) is Some,
            r is Ok ==> Platform::from_label(label@) == Some(final(self).platform),
            r is Ok ==> final(self).outputs_cleared(),
            r is Ok ==> final(self).app_platform == old(self).app_platform && final(self).sdk
                == old(self).sdk && final(self).build_type == old(self).build_type && final(self).custom_inputs == old(self).custom_inputs,
            r is Err ==> *final(self) == *old(self),
    {
        match Platform::parse(label) {
            Ok(v) => {
                self.clear_text();
                self.platform = v;
                Ok(())
            },
            Err(e) => Err(e),
        }
    }

    /// Selects the SDK named by `label`. An unknown label fails and leaves
    /// the state untouched; success stores the SDK and clears the outputs.
    pub fn update_sdk(&mut self, label: &str) -> (r: Result<(), ParseError>)
        ensures
            r is Ok <==> Sdk::from_label(label@) is Some,
            r is Ok ==> Sdk::from_label(label@) == Some(final(self).sdk),
            r is Ok ==> final(self).outputs_cleared(),
            r is Ok ==> final(self).app_platform == old(self).app_platform && final(self).platform
                == old(self).platform && final(self).build_type == old(self).build_type && final(self).custom_inputs == old(self).custom_inputs,
            r is Err ==> *final(self) == *old(self),
    {
        match Sdk::parse(label) {
            Ok(v) => {
                self.clear_text();
                self.sdk = v;
                Ok(())
            },
            Err(e) => Err(e),
        }
    }

    /// Selects the signing mode named by `label`. An unknown label fails and
    /// leaves the state untouched. Success stores the mode, clears the
    /// outputs, and resets the variant name and path to the mode's defaults;
    /// the publishing format and the version-prompt flag are kept.
    pub fn update_build_type(&mut self, label: &str) -> (r: Result<(), ParseError>)
        ensures
            r is Ok <==> BuildType::from_label(label@) is Some,
            r is Ok ==> BuildType::from_label(label@) == Some(final(self).build_type),
            r is Ok ==> final(self).outputs_cleared(),
            r is Ok ==> final(self).custom_inputs.build_variant_name.deep_view() == Some(
                default_variant_name(final(self).build_type),
            ),
            r is Ok ==> final(self).custom_inputs.build_variant_path.deep_view() == Some(
                default_variant_path(final(self).build_type),
            ),
            r is Ok ==> final(self).app_platform == old(self).app_platform && final(self).platform
                == old(self).platform && final(self).sdk == old(self).sdk && final(self).custom_inputs.publishing_format == old(self).custom_inputs.publishing_format && final(self).custom_inputs.show_versions == old(self).custom_inputs.show_versions,
            r is Err ==> *final(self) == *old(self),
    {
        match BuildType::parse(label) {
            Ok(v) => {
                self.clear_text();
                self.build_type = v;
                match v {
                    BuildType::Signed => {
                        self.custom_inputs.build_variant_name = Some("Release".to_owned());
                        self.custom_inputs.build_variant_path = Some(
                            "release/app-prod-release".to_owned(),
                        );
                    },
                    BuildType::Unsigned => {
                        self.custom_inputs.build_variant_name = Some("Debug".to_owned());
                        self.custom_inputs.build_variant_path = Some("debug/app-debug".to_owned());
                    },
                }
                Ok(())
            },
            Err(e) => Err(e),
        }
    }

    /// Selects the publishing format named by `label`. An unknown label fails
    /// and leaves the state untouched; success stores the format and clears
    /// the outputs.
    pub fn update_publishing_format(&mut self, label: &str) -> (r: Result<(), ParseError>)
        ensures
            r is Ok <==> PublishingFormat::from_label(label@) is Some,
            r is Ok ==> PublishingFormat::from_label(label@) == Some(
                final(self).custom_inputs.publishing_format,
            ),
            r is Ok ==> final(self).outputs_cleared(),
            r is Ok ==> final(self).app_platform == old(self).app_platform && final(self).platform
                == old(self).platform && final(self).sdk == old(self).sdk && final(self).build_type
                == old(self).build_type,
            r is Ok ==> final(self).custom_inputs.build_variant_name == old(self).custom_inputs.build_variant_name && final(self).custom_inputs.build_variant_path
                == old(self).custom_inputs.build_variant_path && final(self).custom_inputs.show_versions == old(self).custom_inputs.show_versions,
            r is Err ==> *final(self) == *old(self),
    {
        match PublishingFormat::parse(label) {
            Ok(v) => {
                self.clear_text();
                self.custom_inputs.publishing_format = v;
                Ok(())
            },
            Err(e) => Err(e),
        }
    }

    /// Stores free text as the variant name (any text, empty permitted) and
    /// clears the outputs. Cannot fail.
    pub fn update_build_variant_name(&mut self, value: String)
        ensures
            final(self).custom_inputs.build_variant_name.deep_view() == Some(value@),
            final(self).outputs_cleared(),
            final(self).app_platform == old(self).app_platform,
            final(self).platform == old(self).platform,
            final(self).sdk == old(self).sdk,
            final(self).build_type == old(self).build_type,
            final(self).custom_inputs.build_variant_path == old(self).custom_inputs.build_variant_path,
            final(self).custom_inputs.publishing_format == old(self).custom_inputs.publishing_format,
            final(self).custom_inputs.show_versions == old(self).custom_inputs.show_versions,
    {
        self.clear_text();
        self.custom_inputs.build_variant_name = Some(value);
    }

    /// Stores free text as the variant output path (any text, empty
    /// permitted) and clears the outputs. Cannot fail.
    pub fn update_build_variant_path(&mut self, value: String)
        ensures
            final(self).custom_inputs.build_variant_path.deep_view() == Some(value@),
            final(self).outputs_cleared(),
            final(self).app_platform == old(self).app_platform,
            final(self).platform == old(self).platform,
            final(self).sdk == old(self).sdk,
            final(self).build_type == old(self).build_type,
            final(self).custom_inputs.build_variant_name == old(self).custom_inputs.build_variant_name,
            final(self).custom_inputs.publishing_format == old(self).custom_inputs.publishing_format,
            final(self).custom_inputs.show_versions == old(self).custom_inputs.show_versions,
    {
        self.clear_text();
        self.custom_inputs.build_variant_path = Some(value);
    }

    /// Stores the version-prompt flag and clears the outputs. Cannot fail.
    pub fn update_show_versions(&mut self, value: bool)
        ensures
            final(self).custom_inputs.show_versions == value,
            final(self).outputs_cleared(),
            final(self).app_platform == old(self).app_platform,
            final(self).platform == old(self).platform,
            final(self).sdk == old(self).sdk,
            final(self).build_type == old(self).build_type,
            final(self).custom_inputs.build_variant_name == old(self).custom_inputs.build_variant_name,
            final(self).custom_inputs.build_variant_path == old(self).custom_inputs.build_variant_path,
            final(self).custom_inputs.publishing_format == old(self).custom_inputs.publishing_format,
    {
        self.clear_text();
        self.custom_inputs.show_versions = value;
    }

    /// Generates both outputs for the current configuration. When the triple
    /// has a catalog entry, both outputs are stored (the info text is empty
    /// for entries without an info template); when it has none, the error is
    /// returned and the state is untouched. The configuration fields are
    /// never changed.
    pub fn gen_templates(&mut self) -> (r: Result<(), UnsupportedCombination>)
        ensures
            r is Ok <==> spec_resolve(old(self).platform, old(self).sdk, old(self).build_type)
                is Some,
            final(self).same_config(old(self)),
            r is Ok ==> final(self).code_template.deep_view() == Some(old(self).spec_code_text()),
            r is Ok ==> final(self).info_template.deep_view() == Some(old(self).spec_info_text()),
            r is Err ==> *final(self) == *old(self),
    {
        let entry = match resolve(self.platform, self.sdk, self.build_type) {
            Ok(e) => e,
            Err(e) => {
                return Err(e);
            },
        };
        let name_ref: &str = match &self.custom_inputs.build_variant_name {
            Some(n) => n.as_str(),
            None => "",
        };
        let path_ref: &str = match &self.custom_inputs.build_variant_path {
            Some(p) => p.as_str(),
            None => "",
        };
        proof {
            reveal_strlit("");
            assert(""@ =~= Seq::<char>::empty());
        }
        let code = render_chunks(
            &entry.code_chunks,
            entry.title,
            self.custom_inputs.publishing_format,
            name_ref,
            path_ref,
            self.custom_inputs.show_versions,
        );
        let info = match &entry.info_chunks {
            Some(ic) => render_chunks(
                ic,
                entry.title,
                self.custom_inputs.publishing_format,
                name_ref,
                path_ref,
                self.custom_inputs.show_versions,
            ),
            None => String::new(),
        };
        self.code_template = Some(code);
        self.info_template = Some(info);
        Ok(())
    }
}

/// Generation is a function of the configuration alone: two states with the
/// same configuration render the same code and info texts. With the ensures
/// of `gen_templates`, generating twice without an intervening update
/// therefore yields identical texts.
pub proof fn lemma_generate_deterministic(s1: State, s2: State)
    requires
        s1.same_config(&s2),
    ensures
        s1.spec_code_text() == s2.spec_code_text(),
        s1.spec_info_text() == s2.spec_info_text(),
{
}

/// What a successful generation renders always carries the entry's canonical
/// title and the artifact file name: the variant path, a dot, and the
/// lowercase publishing-format token.
pub proof fn lemma_code_text_markers(s: State)
    ensures
        contains_text(s.spec_code_text(), title_of(s.platform, s.sdk, s.build_type)),
        contains_text(
            s.spec_code_text(),
            s.custom_inputs.path_text() + "."@ + s.custom_inputs.publishing_format.ext(),
        ),
{
    lemma_code_contains_markers(s.platform, s.sdk, s.build_type, s.binds());
}

/// A signed configuration renders a non-empty info text; an unsigned one
/// renders an empty info text, because only signed entries carry an info
/// template.
pub proof fn lemma_info_text_by_mode(s: State)
    ensures
        s.build_type == BuildType::Signed ==> s.spec_info_text().len() > 0,
        s.build_type == BuildType::Unsigned ==> s.spec_info_text() == Seq::<char>::empty(),
{
    lemma_info_presence(s.platform, s.sdk, s.binds());
}

} // verus!
