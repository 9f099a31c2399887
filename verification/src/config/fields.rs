//! Field extractors: look a named key up in a mapping and take its value as
//! a scalar of the kind that is expected, telling "absent or null" from "of
//! the wrong kind" from "there and of the kind".

use vstd::prelude::*;
use crate::config::diagnostic::{Diagnostic, DiagnosticView};
use crate::config::document::{lookup, Mapping, MappingView, Value, ValueView};
use crate::config::outcome::{outcome, outcome_perhaps};
use crate::config::scalar::{kind_of, scalar_of, ScalarKind, ScalarValue, ScalarView};

verus! {

/// How a diagnostic calls the string kind.
pub open spec fn string_kind() -> Seq<char> {
    ScalarKind::String.description()
}

/// Whether a lookup found nothing to read: no entry, or null.
pub open spec fn is_missing(found: Option<ValueView>) -> bool {
    found is None || found == Some(ValueView::Null)
}

/// Whether a lookup found a string.
pub open spec fn is_string(found: Option<ValueView>) -> bool {
    found matches Some(value) && value is String
}

/// Whether `value` is a scalar of kind `kind`.
pub open spec fn is_of_kind(value: ValueView, kind: ScalarKind) -> bool {
    scalar_of(value) matches Some(scalar) && kind_of(scalar) == kind
}

/// The scalar of kind `kind` under a required key of `container`.
///
/// A key that is absent or null is missing; any other value that is not
/// of the kind is of the wrong kind.
pub open spec fn required_scalar(container: MappingView, key: Seq<char>, kind: ScalarKind) -> Result<
    ScalarView,
    DiagnosticView,
> {
    let found = lookup(container, key);
    if is_missing(found) {
        Err(DiagnosticView::MissingRequiredField { key, container })
    } else if is_of_kind(found->0, kind) {
        Ok(scalar_of(found->0)->0)
    } else {
        Err(
            DiagnosticView::WrongFieldType {
                key,
                required: true,
                container,
                expected: kind.description(),
            },
        )
    }
}

/// The scalar of kind `kind` under an optional key of `container`, or
/// nothing where the key is absent or null.
pub open spec fn optional_scalar(container: MappingView, key: Seq<char>, kind: ScalarKind) -> Result<
    Option<ScalarView>,
    DiagnosticView,
> {
    let found = lookup(container, key);
    if is_missing(found) {
        Ok(None)
    } else if is_of_kind(found->0, kind) {
        Ok(Some(scalar_of(found->0)->0))
    } else {
        Err(
            DiagnosticView::WrongFieldType {
                key,
                required: false,
                container,
                expected: kind.description(),
            },
        )
    }
}

/// The string under a required key of `container`.
pub open spec fn required_string(container: MappingView, key: Seq<char>) -> Result<
    Seq<char>,
    DiagnosticView,
> {
    match required_scalar(container, key, ScalarKind::String) {
        Ok(scalar) => Ok(scalar->String_0),
        Err(diagnostic) => Err(diagnostic),
    }
}

/// The string under an optional key of `container`, or nothing where the
/// key is absent or null.
pub open spec fn optional_string(container: MappingView, key: Seq<char>) -> Result<
    Option<Seq<char>>,
    DiagnosticView,
> {
    match optional_scalar(container, key, ScalarKind::String) {
        Ok(Some(scalar)) => Ok(Some(scalar->String_0)),
        Ok(None) => Ok(None),
        Err(diagnostic) => Err(diagnostic),
    }
}

/// The string extractors, case by case: a key that is absent or null is
/// missing, a string is handed over as it is, and a value of any other
/// kind is of the wrong kind, where a `"string"` was expected.
pub proof fn lemma_string_fields(container: MappingView, key: Seq<char>)
    ensures
        required_string(container, key) == match lookup(container, key) {
            None => Err(DiagnosticView::MissingRequiredField { key, container }),
            Some(ValueView::Null) => Err(DiagnosticView::MissingRequiredField { key, container }),
            Some(ValueView::String(text)) => Ok(text),
            Some(_) => Err(
                DiagnosticView::WrongFieldType {
                    key,
                    required: true,
                    container,
                    expected: "string"@,
                },
            ),
        },
        optional_string(container, key) == match lookup(container, key) {
            None => Ok(None),
            Some(ValueView::Null) => Ok(None),
            Some(ValueView::String(text)) => Ok(Some(text)),
            Some(_) => Err(
                DiagnosticView::WrongFieldType {
                    key,
                    required: false,
                    container,
                    expected: "string"@,
                },
            ),
        },
{
}

/// What stands under a key, as an extractor sees it.
enum Reading {
    /// Nothing, or null.
    Missing,
    /// A scalar of the kind that is expected.
    Fitting(ScalarValue),
    /// Something of another kind.
    Misfit,
}

/// Reads what stands under `key` in `container` and holds it against
/// `kind`.
fn read(container: &Mapping, key: &str, kind: ScalarKind) -> (reading: Reading)
    ensures
        match reading {
            Reading::Missing => is_missing(lookup(container@, key@)),
            Reading::Fitting(scalar) => !is_missing(lookup(container@, key@)) && is_of_kind(
                lookup(container@, key@)->0,
                kind,
            ) && scalar_of(lookup(container@, key@)->0) == Some(scalar@),
            Reading::Misfit => !is_missing(lookup(container@, key@)) && !is_of_kind(
                lookup(container@, key@)->0,
                kind,
            ),
        },
{
    match container.get(key) {
        None => Reading::Missing,
        Some(Value::Null) => Reading::Missing,
        Some(value) => match ScalarValue::from_value(value) {
            Some(scalar) => if scalar.kind() == kind {
                Reading::Fitting(scalar)
            } else {
                Reading::Misfit
            },
            None => Reading::Misfit,
        },
    }
}

/// Reads the scalar of kind `kind` under the required key `key` of
/// `container`.
pub fn required_scalar_field(container: &Mapping, key: &str, kind: ScalarKind) -> (result: Result<
    ScalarValue,
    Diagnostic,
>)
    ensures
        outcome(result) == required_scalar(container@, key@, kind),
{
    match read(container, key, kind) {
        Reading::Missing => Err(Diagnostic::required_key(key, container)),
        Reading::Fitting(scalar) => Ok(scalar),
        Reading::Misfit => Err(Diagnostic::key_of_type(key, true, container, kind.describe())),
    }
}

/// Reads the scalar of kind `kind` under the optional key `key` of
/// `container`.
pub fn optional_scalar_field(container: &Mapping, key: &str, kind: ScalarKind) -> (result: Result<
    Option<ScalarValue>,
    Diagnostic,
>)
    ensures
        outcome_perhaps(result) == optional_scalar(container@, key@, kind),
{
    match read(container, key, kind) {
        Reading::Missing => Ok(None),
        Reading::Fitting(scalar) => Ok(Some(scalar)),
        Reading::Misfit => Err(Diagnostic::key_of_type(key, false, container, kind.describe())),
    }
}

/// Reads the string under the required key `key` of `container`.
pub fn required_string_field(container: &Mapping, key: &str) -> (result: Result<String, Diagnostic>)
    ensures
        outcome(result) == required_string(container@, key@),
{
    match container.get(key) {
        None => Err(Diagnostic::required_key(key, container)),
        Some(Value::Null) => Err(Diagnostic::required_key(key, container)),
        Some(Value::String(text)) => Ok(text.clone()),
        Some(_) => Err(Diagnostic::key_of_type(key, true, container, "string")),
    }
}

/// Reads the string under the optional key `key` of `container`.
pub fn optional_string_field(container: &Mapping, key: &str) -> (result: Result<
    Option<String>,
    Diagnostic,
>)
    ensures
        outcome_perhaps(result) == optional_string(container@, key@),
{
    match container.get(key) {
        None => Ok(None),
        Some(Value::Null) => Ok(None),
        Some(Value::String(text)) => Ok(Some(text.clone())),
        Some(_) => Err(Diagnostic::key_of_type(key, false, container, "string")),
    }
}

} // verus!
