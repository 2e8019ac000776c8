//! A configuration-to-workflow generator for mobile CI pipelines.
//!
//! The library keeps a small session state (CI provider, mobile SDK, signing
//! mode, and a few user-editable fields), maps each supported
//! (provider, SDK, signing mode) triple to a fixed workflow template, and
//! renders the template with the session's fields bound into it. Every field
//! update invalidates previously generated text; generation either fills both
//! output slots or reports that the triple has no catalog entry.

pub mod catalog;
pub mod code;
pub mod highlight;
pub mod options;
pub mod render;
pub mod state;
