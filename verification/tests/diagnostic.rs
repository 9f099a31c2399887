use lightning::config::diagnostic::{Capability, Diagnostic};
use lightning::config::document::{Mapping, Value};
use lightning::config::scalar::ScalarValue;

fn text(s: &str) -> Value {
    Value::String(s.to_string())
}

fn container() -> Mapping {
    Mapping {
        entries: vec![(text("title"), Value::Integer(3)), (text("url"), Value::Null)],
    }
}

#[test]
fn says_that_a_required_key_is_missing() {
    let diagnostic = Diagnostic::required_key("url", &container());
    assert_eq!(
        Diagnostic::MissingRequiredField {
            key: "url".to_string(),
            container: container(),
        },
        diagnostic
    );
    assert_eq!(
        "Required key `url` missing from {String(\"title\"): Integer(3), String(\"url\"): Null}",
        diagnostic.message()
    );
}

#[test]
fn says_what_kind_was_expected() {
    let diagnostic = Diagnostic::key_of_type("title", true, &container(), "string");
    assert_eq!(
        Diagnostic::WrongFieldType {
            key: "title".to_string(),
            required: true,
            container: container(),
            expected: "string".to_string(),
        },
        diagnostic
    );
    assert_eq!(
        "Required key `title` must be of type `string` in \
         {String(\"title\"): Integer(3), String(\"url\"): Null}",
        diagnostic.message()
    );

    let empty = Mapping { entries: vec![] };
    let diagnostic = Diagnostic::key_of_type("metadata", false, &empty, "mapping");
    assert_eq!(
        "Optional key `metadata` must be of type `mapping` in {}",
        diagnostic.message()
    );
}

#[test]
fn shows_both_values_of_a_key_that_stands_twice() {
    let diagnostic = Diagnostic::double_insertion(
        "foo",
        ScalarValue::String("bar".to_string()),
        ScalarValue::Integer(-3),
    );
    assert_eq!(
        "Double insertion of key foo.\nFirst: String(\"bar\")\nSecond: Integer(-3)",
        diagnostic.message()
    );
}

#[test]
fn names_what_an_outside_validator_turned_down() {
    assert_eq!(
        "`nowhere` is not a valid URL",
        Diagnostic::rejected_by(Capability::UrlValidation, "nowhere").message()
    );
    assert_eq!(
        "`Eastern` is not a known timezone",
        Diagnostic::rejected_by(Capability::TimezoneResolution, "Eastern").message()
    );
}

#[test]
fn reports_only_what_a_validator_turned_down() {
    assert_eq!(
        Ok(()),
        Diagnostic::unless_accepted(Capability::UrlValidation, "https://lightning.rs", true)
    );
    assert_eq!(
        Err(Diagnostic::DelegatedValidationFailure {
            capability: Capability::UrlValidation,
            rejected: "https://lightning.rs".to_string(),
        }),
        Diagnostic::unless_accepted(Capability::UrlValidation, "https://lightning.rs", false)
    );
    assert_eq!(
        Err(Diagnostic::DelegatedValidationFailure {
            capability: Capability::TimezoneResolution,
            rejected: "UTC".to_string(),
        }),
        Diagnostic::unless_accepted(Capability::TimezoneResolution, "UTC", false)
    );
}

#[test]
fn copies_a_diagnostic_whole() {
    let diagnostic = Diagnostic::key_of_type("title", true, &container(), "string");
    assert_eq!(diagnostic, diagnostic.clone());
    let diagnostic = Diagnostic::rejected_by(Capability::UrlValidation, "nowhere");
    assert_eq!(diagnostic, diagnostic.clone());
}
