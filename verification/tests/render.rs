use lightning::config::document::{Mapping, Value};

fn text(s: &str) -> Value {
    Value::String(s.to_string())
}

#[test]
fn writes_integers_in_decimal() {
    assert_eq!("Integer(0)", Value::Integer(0).to_text());
    assert_eq!("Integer(7)", Value::Integer(7).to_text());
    assert_eq!("Integer(10)", Value::Integer(10).to_text());
    assert_eq!("Integer(-1)", Value::Integer(-1).to_text());
    assert_eq!("Integer(1234567890)", Value::Integer(1234567890).to_text());
    assert_eq!(
        "Integer(9223372036854775807)",
        Value::Integer(i64::MAX).to_text()
    );
    assert_eq!(
        "Integer(-9223372036854775808)",
        Value::Integer(i64::MIN).to_text()
    );
}

#[test]
fn writes_scalars_under_the_name_of_their_kind() {
    assert_eq!("Null", Value::Null.to_text());
    assert_eq!("Boolean(true)", Value::Boolean(true).to_text());
    assert_eq!("Boolean(false)", Value::Boolean(false).to_text());
    assert_eq!("Real(\"1.5e3\")", Value::Real("1.5e3".to_string()).to_text());
    assert_eq!("String(\"lx (lightning)\")", text("lx (lightning)").to_text());
    assert_eq!("String(\"\")", text("").to_text());
    assert_eq!("String(\"a\"b\nc\")", text("a\"b\nc").to_text());
}

#[test]
fn writes_sequences_and_mappings_with_their_contents() {
    assert_eq!("Sequence([])", Value::Sequence(vec![]).to_text());
    assert_eq!(
        "Sequence([Integer(1)])",
        Value::Sequence(vec![Value::Integer(1)]).to_text()
    );
    assert_eq!(
        "Sequence([Integer(1), Null, String(\"x\")])",
        Value::Sequence(vec![Value::Integer(1), Value::Null, text("x")]).to_text()
    );
    let inner = Mapping {
        entries: vec![(text("a"), Value::Integer(1)), (Value::Integer(2), text("b"))],
    };
    assert_eq!("{String(\"a\"): Integer(1), Integer(2): String(\"b\")}", inner.to_text());
    assert_eq!(
        "Mapping({String(\"a\"): Integer(1), Integer(2): String(\"b\")})",
        Value::Mapping(inner.clone()).to_text()
    );
    assert_eq!("{}", Mapping { entries: vec![] }.to_text());
    assert_eq!(
        "{String(\"outer\"): Mapping({String(\"a\"): Integer(1), Integer(2): String(\"b\")})}",
        Mapping { entries: vec![(text("outer"), Value::Mapping(inner))] }.to_text()
    );
}
