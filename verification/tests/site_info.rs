use lightning::config::diagnostic::{Capability, Diagnostic};
use lightning::config::document::{Mapping, Value};
use lightning::config::metadata::Metadata;
use lightning::config::scalar::ScalarValue;
use lightning::config::site_info::SiteInfo;
use lightning::config::timezone::TimezoneId;
use lightning::config::validated_url::ValidatedUrl;
use yaml_rust::{Yaml, YamlLoader};

fn value_from_yaml(yaml: &Yaml) -> Value {
    match *yaml {
        Yaml::Null => Value::Null,
        Yaml::Boolean(b) => Value::Boolean(b),
        Yaml::Integer(i) => Value::Integer(i),
        Yaml::Real(ref text) => Value::Real(text.clone()),
        Yaml::String(ref text) => Value::String(text.clone()),
        Yaml::Array(ref items) => Value::Sequence(items.iter().map(value_from_yaml).collect()),
        Yaml::Hash(ref hash) => Value::Mapping(mapping_from_yaml(hash)),
        Yaml::Alias(_) | Yaml::BadValue => panic!("not a node of a loaded document"),
    }
}

fn mapping_from_yaml(hash: &yaml_rust::yaml::Hash) -> Mapping {
    Mapping {
        entries: hash
            .iter()
            .map(|(key, value)| (value_from_yaml(key), value_from_yaml(value)))
            .collect(),
    }
}

fn scalar(yaml: Yaml) -> ScalarValue {
    ScalarValue::from_value(&value_from_yaml(&yaml)).unwrap()
}

fn load_site_info(source: &str) -> Mapping {
    let mut loaded = YamlLoader::load_from_str(source).unwrap();
    let first = loaded.pop().unwrap();
    let hash = first.as_hash().unwrap()[&Yaml::from_str("site_info")]
        .as_hash()
        .unwrap()
        .clone();
    mapping_from_yaml(&hash)
}

fn text(s: &str) -> Value {
    Value::String(s.to_string())
}

fn mapping(entries: Vec<(&str, Value)>) -> Mapping {
    Mapping {
        entries: entries
            .into_iter()
            .map(|(key, value)| (text(key), value))
            .collect(),
    }
}

fn with_entry(document: &Mapping, key: &str, value: Value) -> Mapping {
    let mut entries: Vec<(Value, Value)> = document
        .entries
        .iter()
        .filter(|entry| entry.0 != text(key))
        .cloned()
        .collect();
    entries.push((text(key), value));
    Mapping { entries }
}

fn full_document(timezone: &str) -> Mapping {
    mapping(vec![
        ("title", text("lx (lightning)")),
        ("url", text("https://lightning.rs")),
        ("description", text("A ridiculously fast site generator.")),
        ("default_timezone", text(timezone)),
        (
            "metadata",
            Value::Mapping(mapping(vec![("foo", text("bar")), ("quux", Value::Integer(2))])),
        ),
    ])
}

fn missing(key: &str, container: &Mapping) -> Diagnostic {
    Diagnostic::MissingRequiredField {
        key: key.to_string(),
        container: container.clone(),
    }
}

fn wrong_type(key: &str, required: bool, container: &Mapping, expected: &str) -> Diagnostic {
    Diagnostic::WrongFieldType {
        key: key.to_string(),
        required,
        container: container.clone(),
        expected: expected.to_string(),
    }
}

#[test]
fn parses_title() {
    let document = mapping(vec![("title", text("lx (lightning)"))]);
    assert_eq!(Ok("lx (lightning)".to_string()), SiteInfo::parse_title(&document));

    let empty = mapping(vec![]);
    assert_eq!(Err(missing("title", &empty)), SiteInfo::parse_title(&empty));

    let null = mapping(vec![("title", Value::Null)]);
    assert_eq!(Err(missing("title", &null)), SiteInfo::parse_title(&null));

    let number = mapping(vec![("title", Value::Integer(3))]);
    assert_eq!(
        Err(wrong_type("title", true, &number, "string")),
        SiteInfo::parse_title(&number)
    );

    let list = mapping(vec![("title", Value::Sequence(vec![text("a"), text("b")]))]);
    assert_eq!(
        Err(wrong_type("title", true, &list, "string")),
        SiteInfo::parse_title(&list)
    );
}

#[test]
fn parses_url() {
    let document = mapping(vec![("url", text("https://lightning.rs"))]);
    let url = SiteInfo::parse_url(&document).unwrap();
    assert_eq!("https://lightning.rs", url.as_str());
    assert_eq!(ValidatedUrl::new("https://lightning.rs").unwrap(), url);

    let empty = mapping(vec![]);
    assert_eq!(Err(missing("url", &empty)), SiteInfo::parse_url(&empty));

    let null = mapping(vec![("url", Value::Null)]);
    assert_eq!(Err(missing("url", &null)), SiteInfo::parse_url(&null));

    let flag = mapping(vec![("url", Value::Boolean(true))]);
    assert_eq!(
        Err(wrong_type("url", true, &flag, "string")),
        SiteInfo::parse_url(&flag)
    );

    let relative = mapping(vec![("url", text("posts/index.html"))]);
    assert_eq!(
        Err(Diagnostic::DelegatedValidationFailure {
            capability: Capability::UrlValidation,
            rejected: "posts/index.html".to_string(),
        }),
        SiteInfo::parse_url(&relative)
    );
}

#[test]
fn parses_metadata() {
    let document = mapping(vec![(
        "metadata",
        Value::Mapping(mapping(vec![
            ("foo", text("bar")),
            ("quux", Value::Integer(2)),
            ("draft", Value::Boolean(false)),
            ("ratio", Value::Real("1.5".to_string())),
        ])),
    )]);
    let metadata = SiteInfo::parse_metadata(&document).unwrap();
    assert_eq!(4, metadata.len());
    assert_eq!(Some(&ScalarValue::String("bar".to_string())), metadata.get("foo"));
    assert_eq!(Some(&ScalarValue::Integer(2)), metadata.get("quux"));
    assert_eq!(Some(&ScalarValue::Boolean(false)), metadata.get("draft"));
    assert_eq!(Some(&ScalarValue::Real("1.5".to_string())), metadata.get("ratio"));
    assert_eq!(None, metadata.get("title"));

    let absent = mapping(vec![("title", text("lx"))]);
    assert_eq!(Ok(Metadata::new()), SiteInfo::parse_metadata(&absent));

    let null = mapping(vec![("metadata", Value::Null)]);
    assert_eq!(Ok(Metadata::new()), SiteInfo::parse_metadata(&null));

    let scalar_there = mapping(vec![("metadata", text("none"))]);
    assert_eq!(
        Err(wrong_type("metadata", false, &scalar_there, "mapping")),
        SiteInfo::parse_metadata(&scalar_there)
    );
}

#[test]
fn parses_default_timezone() {
    let utc = mapping(vec![("default_timezone", text("UTC"))]);
    let zone = SiteInfo::parse_default_timezone(&utc).unwrap();
    assert_eq!("UTC", zone.name());
    assert_eq!(TimezoneId::resolve("UTC").unwrap(), zone);

    let eastern = mapping(vec![("default_timezone", text("US/Eastern"))]);
    assert_eq!(
        "US/Eastern",
        SiteInfo::parse_default_timezone(&eastern).unwrap().name()
    );

    let lower = mapping(vec![("default_timezone", text("us/eastern"))]);
    assert_eq!(
        Err(Diagnostic::DelegatedValidationFailure {
            capability: Capability::TimezoneResolution,
            rejected: "us/eastern".to_string(),
        }),
        SiteInfo::parse_default_timezone(&lower)
    );

    let empty = mapping(vec![]);
    assert_eq!(
        Err(missing("default_timezone", &empty)),
        SiteInfo::parse_default_timezone(&empty)
    );

    let number = mapping(vec![("default_timezone", Value::Integer(-5))]);
    assert_eq!(
        Err(wrong_type("default_timezone", true, &number, "string")),
        SiteInfo::parse_default_timezone(&number)
    );
}

#[test]
fn parses_site_info() {
    let site_info = "\
site_info:
    title: lx (lightning)
    url: https://lightning.rs
    description: >
        A ridiculously fast site generator and engine.
    default_timezone: Eastern
    metadata:
        foo: bar
        quux: 2
        ";

    let mut metadata = Metadata::new();
    metadata.insert("foo".into(), scalar(Yaml::from_str("bar")));
    metadata.insert("quux".into(), scalar(Yaml::from_str("2")));
    let expected = SiteInfo {
        title: "lx (lightning)".into(),
        url: ValidatedUrl::new("https://lightning.rs").unwrap(),
        description: Some("A ridiculously fast site generator and engine.\n".into()),
        default_timezone: TimezoneId::resolve("UTC").unwrap(),
        metadata: metadata,
    };

    let site_info = load_site_info(site_info);
    assert_eq!(Ok(expected.title.clone()), SiteInfo::parse_title(&site_info));
    assert_eq!(Ok(expected.url.clone()), SiteInfo::parse_url(&site_info));
    assert_eq!(
        Ok(expected.description.clone()),
        SiteInfo::parse_description(&site_info)
    );
    assert_eq!(
        Some(&ScalarValue::Integer(2)),
        expected.metadata.get("quux")
    );
    assert!(SiteInfo::parse_metadata(&site_info).as_ref() == Ok(&expected.metadata));

    // The registry holds no timezone named "Eastern".
    assert_eq!(
        Err(Diagnostic::DelegatedValidationFailure {
            capability: Capability::TimezoneResolution,
            rejected: "Eastern".to_string(),
        }),
        SiteInfo::from_yaml(&site_info)
    );

    let in_utc = with_entry(&site_info, "default_timezone", text("UTC"));
    assert_eq!(Ok(expected), SiteInfo::from_yaml(&in_utc));
}

#[test]
fn parses_site_info_with_empty_metadata() {
    let site_info_empty_metadata = "
site_info:
    title: lx (lightning)
    url: https://lightning.rs
    description: >
        A ridiculously fast site generator and engine.
    metadata: ~
        ";

    let expected = SiteInfo {
        title: "lx (lightning)".into(),
        url: ValidatedUrl::new("https://lightning.rs").unwrap(),
        description: Some("A ridiculously fast site generator and engine.\n".into()),
        default_timezone: TimezoneId::resolve("UTC").unwrap(),
        metadata: Metadata::new(),
    };

    let site_info = load_site_info(site_info_empty_metadata);
    assert_eq!(Ok(Metadata::new()), SiteInfo::parse_metadata(&site_info));

    // The default timezone is required, and this document has none.
    assert_eq!(
        Err(missing("default_timezone", &site_info)),
        SiteInfo::from_yaml(&site_info)
    );

    let in_utc = with_entry(&site_info, "default_timezone", text("UTC"));
    assert_eq!(Ok(expected), SiteInfo::from_yaml(&in_utc));
}

#[test]
fn accepts_a_full_document() {
    let document = full_document("US/Eastern");
    let site = SiteInfo::from_yaml(&document).unwrap();
    assert_eq!("lx (lightning)", site.title);
    assert_eq!("https://lightning.rs", site.url.as_str());
    assert_eq!("US/Eastern", site.default_timezone.name());
    assert_eq!(
        Some("A ridiculously fast site generator.".to_string()),
        site.description
    );
    assert_eq!(2, site.metadata.len());
    assert_eq!(
        Some(&ScalarValue::String("bar".to_string())),
        site.metadata.get("foo")
    );
    assert_eq!(Some(&ScalarValue::Integer(2)), site.metadata.get("quux"));
}

#[test]
fn refuses_a_timezone_that_the_registry_lacks() {
    let document = full_document("Eastern");
    assert_eq!(
        Err(Diagnostic::DelegatedValidationFailure {
            capability: Capability::TimezoneResolution,
            rejected: "Eastern".to_string(),
        }),
        SiteInfo::from_yaml(&document)
    );
    assert_eq!(
        Ok("lx (lightning)".to_string()),
        SiteInfo::parse_title(&document)
    );
    assert_eq!(
        "https://lightning.rs",
        SiteInfo::parse_url(&document).unwrap().as_str()
    );
    assert_eq!(
        Ok(Some("A ridiculously fast site generator.".to_string())),
        SiteInfo::parse_description(&document)
    );
    assert_eq!(2, SiteInfo::parse_metadata(&document).unwrap().len());
}

#[test]
fn accepts_null_metadata() {
    let document = with_entry(&full_document("US/Eastern"), "metadata", Value::Null);
    let site = SiteInfo::from_yaml(&document).unwrap();
    let full = SiteInfo::from_yaml(&full_document("US/Eastern")).unwrap();
    assert!(site.metadata.is_empty());
    assert_eq!(0, site.metadata.len());
    assert_eq!(Metadata::new(), site.metadata);
    assert_eq!(full.title, site.title);
    assert_eq!(full.url, site.url);
    assert_eq!(full.default_timezone, site.default_timezone);
    assert_eq!(full.description, site.description);
}

#[test]
fn refuses_a_document_without_url() {
    let document = mapping(vec![
        ("title", text("lx (lightning)")),
        ("description", text("A ridiculously fast site generator.")),
        ("default_timezone", text("US/Eastern")),
        (
            "metadata",
            Value::Mapping(mapping(vec![("foo", text("bar")), ("quux", Value::Integer(2))])),
        ),
    ]);
    assert_eq!(
        Err(missing("url", &document)),
        SiteInfo::from_yaml(&document)
    );
}

#[test]
fn refuses_nested_metadata() {
    let nested = mapping(vec![(
        "foo",
        Value::Sequence(vec![Value::Integer(1), Value::Integer(2)]),
    )]);
    let document = with_entry(
        &full_document("US/Eastern"),
        "metadata",
        Value::Mapping(nested.clone()),
    );
    assert_eq!(
        Err(wrong_type("foo", false, &nested, "string, boolean, or integer")),
        SiteInfo::from_yaml(&document)
    );

    let deeper = mapping(vec![
        ("fine", text("yes")),
        ("inner", Value::Mapping(mapping(vec![("a", Value::Integer(1))]))),
    ]);
    let document = with_entry(
        &full_document("US/Eastern"),
        "metadata",
        Value::Mapping(deeper.clone()),
    );
    assert_eq!(
        Err(wrong_type("inner", false, &deeper, "string, boolean, or integer")),
        SiteInfo::from_yaml(&document)
    );
}

#[test]
fn refuses_a_missing_title_whatever_else_is_wrong() {
    let document = mapping(vec![
        ("url", Value::Integer(1)),
        ("description", Value::Boolean(true)),
        ("metadata", text("none")),
    ]);
    assert_eq!(
        Err(missing("title", &document)),
        SiteInfo::from_yaml(&document)
    );

    let null_title = with_entry(&full_document("US/Eastern"), "title", Value::Null);
    assert_eq!(
        Err(missing("title", &null_title)),
        SiteInfo::from_yaml(&null_title)
    );
}

#[test]
fn refuses_a_null_url() {
    let document = with_entry(&full_document("US/Eastern"), "url", Value::Null);
    assert_eq!(
        Err(missing("url", &document)),
        SiteInfo::from_yaml(&document)
    );
}

#[test]
fn refuses_a_title_of_another_kind() {
    let number = with_entry(&full_document("US/Eastern"), "title", Value::Integer(7));
    assert_eq!(
        Err(wrong_type("title", true, &number, "string")),
        SiteInfo::from_yaml(&number)
    );

    let list = with_entry(
        &full_document("US/Eastern"),
        "title",
        Value::Sequence(vec![text("lx")]),
    );
    assert_eq!(
        Err(wrong_type("title", true, &list, "string")),
        SiteInfo::from_yaml(&list)
    );
}

#[test]
fn takes_the_fields_in_order() {
    // URL before description.
    let document = mapping(vec![
        ("title", text("lx")),
        ("url", text("no url at all")),
        ("description", Value::Integer(1)),
    ]);
    assert_eq!(
        Err(Diagnostic::DelegatedValidationFailure {
            capability: Capability::UrlValidation,
            rejected: "no url at all".to_string(),
        }),
        SiteInfo::from_yaml(&document)
    );

    // Description before metadata.
    let document = mapping(vec![
        ("title", text("lx")),
        ("url", text("https://lightning.rs")),
        ("description", Value::Integer(1)),
        ("metadata", text("none")),
    ]);
    assert_eq!(
        Err(wrong_type("description", false, &document, "string")),
        SiteInfo::from_yaml(&document)
    );

    // Metadata before the default timezone.
    let document = mapping(vec![
        ("title", text("lx")),
        ("url", text("https://lightning.rs")),
        ("metadata", text("none")),
    ]);
    assert_eq!(
        Err(wrong_type("metadata", false, &document, "mapping")),
        SiteInfo::from_yaml(&document)
    );
}

#[test]
fn keeps_the_description_as_it_is() {
    let absent = with_entry(&full_document("UTC"), "description", Value::Null);
    assert_eq!(None, SiteInfo::from_yaml(&absent).unwrap().description);

    let lines = "first line\nsecond line\n\n  indented\n";
    let document = with_entry(&full_document("UTC"), "description", text(lines));
    assert_eq!(
        Some(lines.to_string()),
        SiteInfo::from_yaml(&document).unwrap().description
    );

    let empty = with_entry(&full_document("UTC"), "description", text(""));
    assert_eq!(
        Some(String::new()),
        SiteInfo::from_yaml(&empty).unwrap().description
    );

    let number = with_entry(&full_document("UTC"), "description", Value::Integer(0));
    assert_eq!(
        Err(wrong_type("description", false, &number, "string")),
        SiteInfo::from_yaml(&number)
    );
}

#[test]
fn validates_the_same_document_to_the_same_record() {
    let document = full_document("Europe/Berlin");
    let first = SiteInfo::from_yaml(&document);
    let second = SiteInfo::from_yaml(&document);
    assert!(first.is_ok());
    assert_eq!(first, second);

    let refused = with_entry(&document, "url", Value::Null);
    assert_eq!(SiteInfo::from_yaml(&refused), SiteInfo::from_yaml(&refused));
}
