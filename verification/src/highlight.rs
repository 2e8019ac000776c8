//! The option record handed to an external syntax-highlighting collaborator
//! along with generated text. The collaborator only displays; nothing it does
//! flows back into the session state.

use vstd::prelude::*;

verus! {

/// Options for highlighting one generated document.
pub struct HighlightOptions {
    pub language: String,
    pub ignore_illegals: bool,
}

impl HighlightOptions {
    /// The options used for generated workflow text: YAML, tolerant of tokens
    /// the highlighter does not know.
    pub fn yaml() -> (r: HighlightOptions)
        ensures
            r.language@ == "yaml"@,
            r.ignore_illegals,
    {
        HighlightOptions { language: "yaml".to_owned(), ignore_illegals: true }
    }
}

} // verus!
