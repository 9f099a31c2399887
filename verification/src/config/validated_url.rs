//! URLs that the outside parser has accepted as well formed.

use url::Url;
use vstd::prelude::*;
use crate::config::diagnostic::{Capability, Diagnostic, DiagnosticView};
use crate::config::outcome::outcome;

verus! {

/// Whether the `url` crate parses `raw` as an absolute URL.
pub uninterp spec fn url_well_formed(raw: Seq<char>) -> bool;

/// Asks `url::Url::parse` whether `raw` is an absolute URL.
///
/// Trusted: the answer is taken to depend on the text alone, and is
/// `true` exactly when the parser returns `Ok`. Nothing is claimed about
/// which texts it accepts.
#[verifier::external_body]
fn parses_as_absolute_url(raw: &str) -> (accepted: bool)
    ensures
        accepted == url_well_formed(raw@),
{
    Url::parse(raw).is_ok()
}

/// A URL, kept as the text that the parser accepted.
#[derive(Debug, PartialEq, Eq)]
pub struct ValidatedUrl {
    text: String,
}

/// What validating `raw` gives: the text itself where it is well formed,
/// and else a diagnostic that names it.
pub open spec fn url_validation(raw: Seq<char>) -> Result<Seq<char>, DiagnosticView> {
    if url_well_formed(raw) {
        Ok(raw)
    } else {
        Err(
            DiagnosticView::DelegatedValidationFailure {
                capability: Capability::UrlValidation,
                rejected: raw,
            },
        )
    }
}

impl View for ValidatedUrl {
    type V = Seq<char>;

    closed spec fn view(&self) -> Seq<char> {
        self.text@
    }
}

impl ValidatedUrl {
    #[verifier::type_invariant]
    spec fn is_well_formed(&self) -> bool {
        url_well_formed(self.text@)
    }

    /// Validates `raw` and keeps it where it is a well-formed absolute URL.
    pub fn new(raw: &str) -> (result: Result<ValidatedUrl, Diagnostic>)
        ensures
            outcome(result) == url_validation(raw@),
    {
        let accepted = parses_as_absolute_url(raw);
        match Diagnostic::unless_accepted(Capability::UrlValidation, raw, accepted) {
            Ok(_) => Ok(ValidatedUrl { text: raw.to_owned() }),
            Err(diagnostic) => Err(diagnostic),
        }
    }

    /// The text of the URL, which is well formed.
    pub fn as_str(&self) -> (text: &str)
        ensures
            text@ == self@,
            url_well_formed(self@),
    {
        proof {
            use_type_invariant(self);
        }
        self.text.as_str()
    }
}

impl Clone for ValidatedUrl {
    fn clone(&self) -> (copy: Self)
        ensures
            copy@ == self@,
    {
        proof {
            use_type_invariant(self);
        }
        ValidatedUrl { text: self.text.clone() }
    }
}

} // verus!
