//! What validation answers with when it fails: one structured diagnostic
//! that names the key, says what was expected, and holds the container in
//! which the mistake stands.

use vstd::prelude::*;
use crate::config::document::{Mapping, MappingView};
use crate::config::render::{mapping_text, value_text, write_mapping, write_scalar};
use crate::config::scalar::{value_of, ScalarValue, ScalarView};

verus! {

/// A validator outside this library that a field is handed to.
#[derive(Clone, Copy, Debug, PartialEq, Eq, Structural)]
pub enum Capability {
    /// The validation of a string as a well-formed absolute URL.
    UrlValidation,
    /// The registry that knows the timezones by name.
    TimezoneResolution,
}

/// Why a document was turned down.
#[derive(Debug, PartialEq, Eq)]
pub enum Diagnostic {
    /// A required key is absent from `container`, or null there.
    MissingRequiredField { key: String, container: Mapping },
    /// The value under `key` in `container` is not of the `expected` kind.
    WrongFieldType { key: String, required: bool, container: Mapping, expected: String },
    /// `key` stands twice in a mapping, first with `first`, then with
    /// `second`.
    DuplicateKey { key: String, first: ScalarValue, second: ScalarValue },
    /// An outside validator turned the string `rejected` down.
    DelegatedValidationFailure { capability: Capability, rejected: String },
}

/// What a [`Diagnostic`] is, mathematically.
pub enum DiagnosticView {
    MissingRequiredField { key: Seq<char>, container: MappingView },
    WrongFieldType { key: Seq<char>, required: bool, container: MappingView, expected: Seq<char> },
    DuplicateKey { key: Seq<char>, first: ScalarView, second: ScalarView },
    DelegatedValidationFailure { capability: Capability, rejected: Seq<char> },
}

impl View for Diagnostic {
    type V = DiagnosticView;

    open spec fn view(&self) -> DiagnosticView {
        match self {
            Diagnostic::MissingRequiredField { key, container } => {
                DiagnosticView::MissingRequiredField { key: key@, container: container@ }
            },
            Diagnostic::WrongFieldType { key, required, container, expected } => {
                DiagnosticView::WrongFieldType {
                    key: key@,
                    required: *required,
                    container: container@,
                    expected: expected@,
                }
            },
            Diagnostic::DuplicateKey { key, first, second } => {
                DiagnosticView::DuplicateKey { key: key@, first: first@, second: second@ }
            },
            Diagnostic::DelegatedValidationFailure { capability, rejected } => {
                DiagnosticView::DelegatedValidationFailure {
                    capability: *capability,
                    rejected: rejected@,
                }
            },
        }
    }
}

/// How a message calls a key that must, or need not, be there.
pub open spec fn requirement_text(required: bool) -> Seq<char> {
    if required {
        "Required"@
    } else {
        "Optional"@
    }
}

/// The message of a diagnostic: it names the key, says whether the key is
/// required and what was expected, and shows the container.
pub open spec fn message_text(diagnostic: DiagnosticView) -> Seq<char> {
    match diagnostic {
        DiagnosticView::MissingRequiredField { key, container } => {
            "Required key `"@ + key + "` missing from "@ + mapping_text(container)
        },
        DiagnosticView::WrongFieldType { key, required, container, expected } => {
            requirement_text(required) + " key `"@ + key + "` must be of type `"@ + expected
                + "` in "@ + mapping_text(container)
        },
        DiagnosticView::DuplicateKey { key, first, second } => {
            "Double insertion of key "@ + key + ".\nFirst: "@ + value_text(value_of(first))
                + "\nSecond: "@ + value_text(value_of(second))
        },
        DiagnosticView::DelegatedValidationFailure { capability, rejected } => {
            match capability {
                Capability::UrlValidation => "`"@ + rejected + "` is not a valid URL"@,
                Capability::TimezoneResolution => "`"@ + rejected + "` is not a known timezone"@,
            }
        },
    }
}

/// Whether `part` stands in `whole`, in one piece.
pub open spec fn shows(whole: Seq<char>, part: Seq<char>) -> bool {
    exists|at: int|
        0 <= at && at + part.len() <= whole.len() && #[trigger] whole.subrange(
            at,
            at + part.len(),
        ) == part
}

/// A text shows what stands between its beginning and its end.
proof fn lemma_shows_the_middle(before: Seq<char>, part: Seq<char>, after: Seq<char>)
    ensures
        shows(before + part + after, part),
{
    let whole = before + part + after;
    let at = before.len() as int;
    assert(whole.subrange(at, at + part.len()) =~= part);
}

/// The message of a diagnostic shows the key that it is about. Where a
/// value is of the wrong kind, it shows whether the key is required, the
/// kind that was expected, and the container; where a required key is
/// missing, that it is required, and the container.
pub proof fn lemma_message_shows_its_parts(diagnostic: DiagnosticView)
    ensures
        match diagnostic {
            DiagnosticView::MissingRequiredField { key, container } => {
                &&& shows(message_text(diagnostic), key)
                &&& shows(message_text(diagnostic), requirement_text(true))
                &&& shows(message_text(diagnostic), mapping_text(container))
            },
            DiagnosticView::WrongFieldType { key, required, container, expected } => {
                &&& shows(message_text(diagnostic), key)
                &&& shows(message_text(diagnostic), requirement_text(required))
                &&& shows(message_text(diagnostic), expected)
                &&& shows(message_text(diagnostic), mapping_text(container))
            },
            DiagnosticView::DuplicateKey { key, first, second } => {
                &&& shows(message_text(diagnostic), key)
                &&& shows(message_text(diagnostic), value_text(value_of(first)))
                &&& shows(message_text(diagnostic), value_text(value_of(second)))
            },
            DiagnosticView::DelegatedValidationFailure { capability, rejected } => shows(
                message_text(diagnostic),
                rejected,
            ),
        },
{
    let empty = Seq::<char>::empty();
    let text = message_text(diagnostic);
    match diagnostic {
        DiagnosticView::MissingRequiredField { key, container } => {
            reveal_strlit("Required key `");
            reveal_strlit("Required");
            reveal_strlit(" key `");
            let shown = mapping_text(container);
            lemma_shows_the_middle("Required key `"@, key, "` missing from "@ + shown);
            assert(text =~= "Required key `"@ + key + ("` missing from "@ + shown));
            lemma_shows_the_middle(empty, "Required"@, " key `"@ + key + "` missing from "@ + shown);
            assert("Required key `"@ =~= "Required"@ + " key `"@);
            assert(text =~= empty + "Required"@ + (" key `"@ + key + "` missing from "@ + shown));
            lemma_shows_the_middle("Required key `"@ + key + "` missing from "@, shown, empty);
            assert(text =~= "Required key `"@ + key + "` missing from "@ + shown + empty);
        },
        DiagnosticView::WrongFieldType { key, required, container, expected } => {
            let shown = mapping_text(container);
            let opening = requirement_text(required);
            lemma_shows_the_middle(
                opening + " key `"@,
                key,
                "` must be of type `"@ + expected + "` in "@ + shown,
            );
            assert(text =~= opening + " key `"@ + key + ("` must be of type `"@ + expected
                + "` in "@ + shown));
            lemma_shows_the_middle(
                empty,
                opening,
                " key `"@ + key + "` must be of type `"@ + expected + "` in "@ + shown,
            );
            assert(text =~= empty + opening + (" key `"@ + key + "` must be of type `"@ + expected
                + "` in "@ + shown));
            lemma_shows_the_middle(
                opening + " key `"@ + key + "` must be of type `"@,
                expected,
                "` in "@ + shown,
            );
            assert(text =~= opening + " key `"@ + key + "` must be of type `"@ + expected + ("` in "@
                + shown));
            lemma_shows_the_middle(
                opening + " key `"@ + key + "` must be of type `"@ + expected + "` in "@,
                shown,
                empty,
            );
            assert(text =~= opening + " key `"@ + key + "` must be of type `"@ + expected
                + "` in "@ + shown + empty);
        },
        DiagnosticView::DuplicateKey { key, first, second } => {
            let one = value_text(value_of(first));
            let other = value_text(value_of(second));
            lemma_shows_the_middle(
                "Double insertion of key "@,
                key,
                ".\nFirst: "@ + one + "\nSecond: "@ + other,
            );
            assert(text =~= "Double insertion of key "@ + key + (".\nFirst: "@ + one
                + "\nSecond: "@ + other));
            lemma_shows_the_middle(
                "Double insertion of key "@ + key + ".\nFirst: "@,
                one,
                "\nSecond: "@ + other,
            );
            assert(text =~= "Double insertion of key "@ + key + ".\nFirst: "@ + one + (
            "\nSecond: "@ + other));
            lemma_shows_the_middle(
                "Double insertion of key "@ + key + ".\nFirst: "@ + one + "\nSecond: "@,
                other,
                empty,
            );
            assert(text =~= "Double insertion of key "@ + key + ".\nFirst: "@ + one
                + "\nSecond: "@ + other + empty);
        },
        DiagnosticView::DelegatedValidationFailure { capability, rejected } => {
            match capability {
                Capability::UrlValidation => {
                    lemma_shows_the_middle("`"@, rejected, "` is not a valid URL"@);
                },
                Capability::TimezoneResolution => {
                    lemma_shows_the_middle("`"@, rejected, "` is not a known timezone"@);
                },
            }
        },
    }
}

impl Diagnostic {
    /// The message of this diagnostic, for a reader.
    pub fn message(&self) -> (text: String)
        ensures
            text@ == message_text(self@),
    {
        let mut text = String::new();
        match self {
            Diagnostic::MissingRequiredField { key, container } => {
                text.append("Required key `");
                text.append(key.as_str());
                text.append("` missing from ");
                write_mapping(&mut text, container);
            },
            Diagnostic::WrongFieldType { key, required, container, expected } => {
                if *required {
                    text.append("Required");
                } else {
                    text.append("Optional");
                }
                text.append(" key `");
                text.append(key.as_str());
                text.append("` must be of type `");
                text.append(expected.as_str());
                text.append("` in ");
                write_mapping(&mut text, container);
            },
            Diagnostic::DuplicateKey { key, first, second } => {
                text.append("Double insertion of key ");
                text.append(key.as_str());
                text.append(".\nFirst: ");
                write_scalar(&mut text, first);
                text.append("\nSecond: ");
                write_scalar(&mut text, second);
            },
            Diagnostic::DelegatedValidationFailure { capability, rejected } => {
                text.append("`");
                text.append(rejected.as_str());
                match capability {
                    Capability::UrlValidation => {
                        text.append("` is not a valid URL");
                    },
                    Capability::TimezoneResolution => {
                        text.append("` is not a known timezone");
                    },
                }
            },
        }
        assert(text@ =~= message_text(self@));
        text
    }

    /// The diagnostic for a required key that `container` lacks.
    pub fn required_key(key: &str, container: &Mapping) -> (diagnostic: Diagnostic)
        ensures
            diagnostic@ == (DiagnosticView::MissingRequiredField {
                key: key@,
                container: container@,
            }),
    {
        Diagnostic::MissingRequiredField { key: key.to_owned(), container: container.clone() }
    }

    /// The diagnostic for a key whose value in `container` is not of the
    /// `expected` kind.
    pub fn key_of_type(key: &str, required: bool, container: &Mapping, expected: &str) -> (diagnostic:
        Diagnostic)
        ensures
            diagnostic@ == (DiagnosticView::WrongFieldType {
                key: key@,
                required,
                container: container@,
                expected: expected@,
            }),
    {
        Diagnostic::WrongFieldType {
            key: key.to_owned(),
            required,
            container: container.clone(),
            expected: expected.to_owned(),
        }
    }

    /// The diagnostic for a key that stands twice.
    pub fn double_insertion(key: &str, first: ScalarValue, second: ScalarValue) -> (diagnostic:
        Diagnostic)
        ensures
            diagnostic@ == (DiagnosticView::DuplicateKey {
                key: key@,
                first: first@,
                second: second@,
            }),
    {
        Diagnostic::DuplicateKey { key: key.to_owned(), first, second }
    }

    /// What the answer of an outside validator means for `input`: nothing
    /// to report where it accepted, and else the failure that names `input`.
    pub fn unless_accepted(capability: Capability, input: &str, accepted: bool) -> (result: Result<
        (),
        Diagnostic,
    >)
        ensures
            match result {
                Ok(_) => accepted,
                Err(diagnostic) => !accepted && diagnostic@
                    == (DiagnosticView::DelegatedValidationFailure {
                    capability,
                    rejected: input@,
                }),
            },
    {
        if accepted {
            Ok(())
        } else {
            Err(Diagnostic::rejected_by(capability, input))
        }
    }

    /// The diagnostic for a string that an outside validator turned down.
    pub fn rejected_by(capability: Capability, rejected: &str) -> (diagnostic: Diagnostic)
        ensures
            diagnostic@ == (DiagnosticView::DelegatedValidationFailure {
                capability,
                rejected: rejected@,
            }),
    {
        Diagnostic::DelegatedValidationFailure { capability, rejected: rejected.to_owned() }
    }
}

impl Clone for Diagnostic {
    fn clone(&self) -> (copy: Self)
        ensures
            copy@ == self@,
    {
        match self {
            Diagnostic::MissingRequiredField { key, container } => {
                Diagnostic::MissingRequiredField { key: key.clone(), container: container.clone() }
            },
            Diagnostic::WrongFieldType { key, required, container, expected } => {
                Diagnostic::WrongFieldType {
                    key: key.clone(),
                    required: *required,
                    container: container.clone(),
                    expected: expected.clone(),
                }
            },
            Diagnostic::DuplicateKey { key, first, second } => {
                Diagnostic::DuplicateKey {
                    key: key.clone(),
                    first: first.clone(),
                    second: second.clone(),
                }
            },
            Diagnostic::DelegatedValidationFailure { capability, rejected } => {
                Diagnostic::DelegatedValidationFailure {
                    capability: *capability,
                    rejected: rejected.clone(),
                }
            },
        }
    }
}

} // verus!
