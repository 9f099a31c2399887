use lightning::config::document::{Mapping, Value};
use lightning::config::scalar::ScalarValue;

fn text(s: &str) -> Value {
    Value::String(s.to_string())
}

#[test]
fn finds_the_first_entry_under_a_key() {
    let mapping = Mapping {
        entries: vec![
            (text("a"), Value::Integer(1)),
            (text("b"), Value::Integer(2)),
            (text("a"), Value::Integer(3)),
        ],
    };
    assert_eq!(Some(&Value::Integer(1)), mapping.get("a"));
    assert_eq!(Some(&Value::Integer(2)), mapping.get("b"));
    assert_eq!(None, mapping.get("c"));
}

#[test]
fn finds_string_keys_only() {
    let mapping = Mapping {
        entries: vec![
            (Value::Integer(1), text("number")),
            (Value::Real("1".to_string()), text("real")),
            (Value::Null, text("null")),
            (text("1"), text("string")),
        ],
    };
    assert_eq!(Some(&text("string")), mapping.get("1"));
    assert_eq!(None, mapping.get("null"));
}

#[test]
fn copies_a_tree_whole() {
    let inner = Mapping {
        entries: vec![(text("k"), Value::Sequence(vec![Value::Null, Value::Boolean(true)]))],
    };
    let tree = Value::Sequence(vec![
        Value::Integer(-7),
        Value::Real("2.5".to_string()),
        Value::Mapping(inner),
        text("end"),
    ]);
    assert_eq!(tree, tree.clone());
}

#[test]
fn turns_nodes_into_scalars_and_back() {
    assert_eq!(
        Some(ScalarValue::String("bar".to_string())),
        ScalarValue::from_value(&text("bar"))
    );
    assert_eq!(
        Some(ScalarValue::Boolean(true)),
        ScalarValue::from_value(&Value::Boolean(true))
    );
    assert_eq!(
        Some(ScalarValue::Integer(2)),
        ScalarValue::from_value(&Value::Integer(2))
    );
    assert_eq!(
        Some(ScalarValue::Real("2.0".to_string())),
        ScalarValue::from_value(&Value::Real("2.0".to_string()))
    );
    assert_eq!(None, ScalarValue::from_value(&Value::Null));
    assert_eq!(None, ScalarValue::from_value(&Value::Sequence(vec![])));
    assert_eq!(
        None,
        ScalarValue::from_value(&Value::Mapping(Mapping { entries: vec![] }))
    );
    assert_eq!(Value::Integer(2), ScalarValue::Integer(2).to_value());
    assert_eq!(text("bar"), ScalarValue::String("bar".to_string()).to_value());
}
