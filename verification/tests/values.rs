use cyclonedx_core::value::{find, DeserializeError, Value};

#[test]
fn first_entry_with_the_key_is_found() {
    let entries = vec![
        ("a".to_string(), Value::Integer(1)),
        ("b".to_string(), Value::Integer(2)),
        ("a".to_string(), Value::Integer(3)),
    ];
    assert_eq!(find(&entries, "a"), Some(&Value::Integer(1)));
    assert_eq!(find(&entries, "b"), Some(&Value::Integer(2)));
    assert_eq!(find(&entries, "c"), None);
    assert_eq!(find(&entries, ""), None);
    assert_eq!(find(&Vec::new(), "a"), None);
}

#[test]
fn kinds_are_named() {
    assert_eq!(Value::String(String::new()).kind_name(), "string");
    assert_eq!(Value::Integer(-4).kind_name(), "integer");
    assert_eq!(Value::Float("1.5".to_string()).kind_name(), "float");
    assert_eq!(Value::Boolean(true).kind_name(), "boolean");
    assert_eq!(
        Value::Datetime("1979-05-27".to_string()).kind_name(),
        "datetime"
    );
    assert_eq!(Value::Array(vec![]).kind_name(), "array");
    assert_eq!(Value::Table(vec![]).kind_name(), "table");
}

#[test]
fn expectations_read_or_refuse() {
    let text = Value::String("tacos".to_string());
    assert_eq!(text.expect_string(), Ok(&"tacos".to_string()));
    assert_eq!(
        text.expect_boolean(),
        Err(DeserializeError::new(
            "invalid type: string, expected a boolean".to_string()
        ))
    );
    assert_eq!(Value::Boolean(false).expect_boolean(), Ok(false));
    assert_eq!(
        Value::Boolean(false).expect_table(),
        Err(DeserializeError::new(
            "invalid type: boolean, expected a table".to_string()
        ))
    );
    let table = Value::Table(vec![("k".to_string(), Value::Integer(0))]);
    assert_eq!(
        table.expect_table(),
        Ok(&vec![("k".to_string(), Value::Integer(0))])
    );
    assert_eq!(
        table.expect_string(),
        Err(DeserializeError::new(
            "invalid type: table, expected a string".to_string()
        ))
    );
}

#[test]
fn keys_are_recorded_outermost_first() {
    let error = DeserializeError::new("broken".to_string());
    assert_eq!(error.describe(), "broken");
    let error = error.add_key_context("c");
    assert_eq!(error.describe(), "broken for key `c`");
    let error = error.add_key_context("b").add_key_context("a");
    assert_eq!(
        error.keys,
        vec!["a".to_string(), "b".to_string(), "c".to_string()]
    );
    assert_eq!(error.message, "broken");
    assert_eq!(error.describe(), "broken for key `a.b.c`");
}
