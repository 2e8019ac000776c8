//! A one-shot preview generator: renders the workflow template of a triple
//! with the signing mode's default field values, without holding any session
//! state.

use vstd::pervasive::unreached;
use vstd::prelude::*;

use crate::catalog::{code_of, info_of, lemma_catalog_total, resolve};
use crate::options::{BuildType, Platform, PublishingFormat, Sdk};
use crate::render::{render_chunks, render_text, Binds};
use crate::state::{default_variant_name, default_variant_path};

verus! {

/// A triple to preview, with no custom fields attached.
pub struct Code {
    pub platform: Platform,
    pub sdk: Sdk,
    pub build_type: BuildType,
}

/// The two texts a preview produces. The info text is empty when the entry
/// carries no info template (the unsigned entries).
pub struct CodeResult {
    pub info_template: String,
    pub code_template: String,
}

impl Code {
    /// The title a preview is rendered under, by signing mode.
    pub open spec fn preview_title(&self) -> Seq<char> {
        match self.build_type {
            BuildType::Signed => "Android Play Store release build"@,
            BuildType::Unsigned => "Android debug build"@,
        }
    }

    /// The values a preview binds: the mode's title and default variant
    /// fields, the APK format, and no version prompts.
    pub open spec fn preview_binds(&self) -> Binds {
        Binds {
            title: self.preview_title(),
            format: PublishingFormat::Apk,
            variant_name: default_variant_name(self.build_type),
            variant_path: default_variant_path(self.build_type),
            show_versions: false,
        }
    }

    /// The info text a preview produces: rendered from the entry's info
    /// template, or empty when the entry has none.
    pub open spec fn preview_info_text(&self) -> Seq<char> {
        match info_of(self.platform, self.sdk, self.build_type) {
            Some(ic) => render_text(ic, self.preview_binds()),
            None => Seq::<char>::empty(),
        }
    }

    /// Renders the triple's workflow template, and its info template when the
    /// entry has one, under the preview binding. The catalog covers every
    /// triple over the current closed sets, so a preview always succeeds.
    pub fn generate_templates(&self) -> (r: CodeResult)
        ensures
            r.code_template@ == render_text(
                code_of(self.platform, self.sdk, self.build_type),
                self.preview_binds(),
            ),
            r.info_template@ == self.preview_info_text(),
    {
        let entry = match resolve(self.platform, self.sdk, self.build_type) {
            Ok(e) => e,
            Err(_) => {
                proof {
                    lemma_catalog_total(self.platform, self.sdk, self.build_type);
                }
                return unreached();
            },
        };
        let title: &str = match self.build_type {
            BuildType::Signed => "Android Play Store release build",
            BuildType::Unsigned => "Android debug build",
        };
        let name: &str = match self.build_type {
            BuildType::Signed => "Release",
            BuildType::Unsigned => "Debug",
        };
        let path: &str = match self.build_type {
            BuildType::Signed => "release/app-prod-release",
            BuildType::Unsigned => "debug/app-debug",
        };
        let code_template = render_chunks(
            &entry.code_chunks,
            title,
            PublishingFormat::Apk,
            name,
            path,
            false,
        );
        let info_template = match &entry.info_chunks {
            Some(ic) => render_chunks(ic, title, PublishingFormat::Apk, name, path, false),
            None => String::new(),
        };
        CodeResult { info_template, code_template }
    }
}

} // verus!
