//! Timezone identifiers that the outside registry knows.

use std::str::FromStr;
use chrono_tz::Tz;
use vstd::prelude::*;
use crate::config::diagnostic::{Capability, Diagnostic, DiagnosticView};
use crate::config::outcome::outcome;

verus! {

/// Whether the registry of `chrono_tz` holds a timezone named `name`.
pub uninterp spec fn timezone_registered(name: Seq<char>) -> bool;

/// Asks `chrono_tz::Tz::from_str` whether it knows a timezone named
/// `name`.
///
/// Trusted: the answer is taken to depend on the name alone, and is
/// `true` exactly when the lookup returns `Ok`. Nothing is claimed about
/// which names the registry holds.
#[verifier::external_body]
fn registry_knows(name: &str) -> (known: bool)
    ensures
        known == timezone_registered(name@),
{
    Tz::from_str(name).is_ok()
}

/// The identifier of a timezone: a name that the registry knows.
#[derive(Debug, PartialEq, Eq)]
pub struct TimezoneId {
    name: String,
}

/// What resolving `name` gives: the name itself where the registry knows
/// it, and else a diagnostic that names it.
pub open spec fn timezone_resolution(name: Seq<char>) -> Result<Seq<char>, DiagnosticView> {
    if timezone_registered(name) {
        Ok(name)
    } else {
        Err(
            DiagnosticView::DelegatedValidationFailure {
                capability: Capability::TimezoneResolution,
                rejected: name,
            },
        )
    }
}

impl View for TimezoneId {
    type V = Seq<char>;

    closed spec fn view(&self) -> Seq<char> {
        self.name@
    }
}

impl TimezoneId {
    #[verifier::type_invariant]
    spec fn known_to_the_registry(&self) -> bool {
        timezone_registered(self.name@)
    }

    /// Resolves `name` against the registry.
    pub fn resolve(name: &str) -> (result: Result<TimezoneId, Diagnostic>)
        ensures
            outcome(result) == timezone_resolution(name@),
    {
        let known = registry_knows(name);
        match Diagnostic::unless_accepted(Capability::TimezoneResolution, name, known) {
            Ok(_) => Ok(TimezoneId { name: name.to_owned() }),
            Err(diagnostic) => Err(diagnostic),
        }
    }

    /// The name of the timezone, which the registry knows.
    pub fn name(&self) -> (name: &str)
        ensures
            name@ == self@,
            timezone_registered(self@),
    {
        proof {
            use_type_invariant(self);
        }
        self.name.as_str()
    }
}

impl Clone for TimezoneId {
    fn clone(&self) -> (copy: Self)
        ensures
            copy@ == self@,
    {
        proof {
            use_type_invariant(self);
        }
        TimezoneId { name: self.name.clone() }
    }
}

} // verus!
