//! Configuration of a site: the document model, the validated record, and
//! the diagnostics that validation answers with.

pub mod collect;
pub mod diagnostic;
pub mod document;
pub mod fields;
pub mod laws;
pub mod metadata;
pub mod outcome;
pub mod render;
pub mod scalar;
pub mod site_info;
pub mod timezone;
pub mod validated_url;
