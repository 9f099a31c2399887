//! The validated record of a site, and the validation that builds it from
//! a mapping node of the document.

use vstd::prelude::*;
use crate::config::collect::{collect_metadata, metadata_of};
use crate::config::diagnostic::{Diagnostic, DiagnosticView};
use crate::config::document::{Mapping, MappingView};
use crate::config::fields::{
    optional_string,
    optional_string_field,
    required_string,
    required_string_field,
};
use crate::config::metadata::Metadata;
use crate::config::outcome::{outcome, outcome_perhaps, perhaps};
use crate::config::scalar::ScalarView;
use crate::config::timezone::{timezone_resolution, TimezoneId};
use crate::config::validated_url::{url_validation, ValidatedUrl};

verus! {

/// What is known of a site: every field has passed validation.
#[derive(Debug, PartialEq, Eq)]
pub struct SiteInfo {
    /// The name of the site. Required.
    pub title: String,
    /// The canonical URL for the root of the site. Required.
    pub url: ValidatedUrl,
    /// The default timezone to use with posts. Required.
    pub default_timezone: TimezoneId,
    /// The description of the site. Optional.
    pub description: Option<String>,
    /// Arbitrary metadata associated with the site. Optional.
    pub metadata: Metadata,
}

/// What a [`SiteInfo`] is, mathematically.
pub struct SiteInfoView {
    pub title: Seq<char>,
    pub url: Seq<char>,
    pub default_timezone: Seq<char>,
    pub description: Option<Seq<char>>,
    pub metadata: Map<Seq<char>, ScalarView>,
}

impl View for SiteInfo {
    type V = SiteInfoView;

    open spec fn view(&self) -> SiteInfoView {
        SiteInfoView {
            title: self.title@,
            url: self.url@,
            default_timezone: self.default_timezone@,
            description: perhaps(self.description),
            metadata: self.metadata@,
        }
    }
}

/// The key of the site's name.
pub open spec fn title_key() -> Seq<char> {
    "title"@
}

/// The key of the site's URL.
pub open spec fn url_key() -> Seq<char> {
    "url"@
}

/// The key of the site's description.
pub open spec fn description_key() -> Seq<char> {
    "description"@
}

/// The key of the site's metadata.
pub open spec fn metadata_key() -> Seq<char> {
    "metadata"@
}

/// The key of the site's default timezone.
pub open spec fn default_timezone_key() -> Seq<char> {
    "default_timezone"@
}

/// The URL of a document: the string under its key, validated.
pub open spec fn url_of(document: MappingView) -> Result<Seq<char>, DiagnosticView> {
    match required_string(document, url_key()) {
        Ok(raw) => url_validation(raw),
        Err(diagnostic) => Err(diagnostic),
    }
}

/// The default timezone of a document: the string under its key, resolved.
pub open spec fn default_timezone_of(document: MappingView) -> Result<Seq<char>, DiagnosticView> {
    match required_string(document, default_timezone_key()) {
        Ok(name) => timezone_resolution(name),
        Err(diagnostic) => Err(diagnostic),
    }
}

/// The record that a document validates to, or the diagnostic of the
/// first field that fails. The fields are taken in this order: title, URL,
/// description, metadata, default timezone.
pub open spec fn validated(document: MappingView) -> Result<SiteInfoView, DiagnosticView> {
    match required_string(document, title_key()) {
        Err(diagnostic) => Err(diagnostic),
        Ok(title) => match url_of(document) {
            Err(diagnostic) => Err(diagnostic),
            Ok(url) => match optional_string(document, description_key()) {
                Err(diagnostic) => Err(diagnostic),
                Ok(description) => match metadata_of(document, metadata_key()) {
                    Err(diagnostic) => Err(diagnostic),
                    Ok(metadata) => match default_timezone_of(document) {
                        Err(diagnostic) => Err(diagnostic),
                        Ok(default_timezone) => Ok(
                            SiteInfoView { title, url, default_timezone, description, metadata },
                        ),
                    },
                },
            },
        },
    }
}

impl SiteInfo {
    /// Validates the mapping node `yaml` into a record, or answers with
    /// the diagnostic of the first field that fails.
    pub fn from_yaml(yaml: &Mapping) -> (result: Result<SiteInfo, Diagnostic>)
        ensures
            outcome(result) == validated(yaml@),
    {
        let title = SiteInfo::parse_title(yaml)?;
        let url = SiteInfo::parse_url(yaml)?;
        let description = SiteInfo::parse_description(yaml)?;
        let metadata = SiteInfo::parse_metadata(yaml)?;
        let default_timezone = SiteInfo::parse_default_timezone(yaml)?;

        Ok(SiteInfo { title, url, default_timezone, description, metadata })
    }

    /// Reads the site's name.
    pub fn parse_title(yaml: &Mapping) -> (result: Result<String, Diagnostic>)
        ensures
            outcome(result) == required_string(yaml@, title_key()),
    {
        required_string_field(yaml, "title")
    }

    /// Reads the site's URL and has it validated.
    pub fn parse_url(yaml: &Mapping) -> (result: Result<ValidatedUrl, Diagnostic>)
        ensures
            outcome(result) == url_of(yaml@),
    {
        match required_string_field(yaml, "url") {
            Ok(raw) => ValidatedUrl::new(raw.as_str()),
            Err(diagnostic) => Err(diagnostic),
        }
    }

    /// Reads the site's default timezone and has it resolved.
    pub fn parse_default_timezone(yaml: &Mapping) -> (result: Result<TimezoneId, Diagnostic>)
        ensures
            outcome(result) == default_timezone_of(yaml@),
    {
        match required_string_field(yaml, "default_timezone") {
            Ok(name) => TimezoneId::resolve(name.as_str()),
            Err(diagnostic) => Err(diagnostic),
        }
    }

    /// Reads the site's description, if it has one.
    pub fn parse_description(yaml: &Mapping) -> (result: Result<Option<String>, Diagnostic>)
        ensures
            outcome_perhaps(result) == optional_string(yaml@, description_key()),
    {
        optional_string_field(yaml, "description")
    }

    /// Reads the site's metadata, if it has any.
    pub fn parse_metadata(yaml: &Mapping) -> (result: Result<Metadata, Diagnostic>)
        ensures
            outcome(result) == metadata_of(yaml@, metadata_key()),
    {
        collect_metadata(yaml, "metadata")
    }
}

} // verus!
