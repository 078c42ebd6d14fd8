use questdb::{schema_string, Atomicity, Schema};

#[test]
fn column_type_wire_tokens() {
    assert_eq!(Schema::Boolean.wire_str(), "BOOLEAN");
    assert_eq!(Schema::Byte.wire_str(), "BYTE");
    assert_eq!(Schema::Short.wire_str(), "SHORT");
    assert_eq!(Schema::Char.wire_str(), "CHAR");
    assert_eq!(Schema::Int.wire_str(), "INT");
    assert_eq!(Schema::Float.wire_str(), "FLOAT");
    assert_eq!(Schema::Symbol.wire_str(), "SYMBOL");
    assert_eq!(Schema::String.wire_str(), "STRING");
    assert_eq!(Schema::Long.wire_str(), "LONG");
    assert_eq!(Schema::Date.wire_str(), "DATE");
    assert_eq!(Schema::Timestamp.wire_str(), "TIMESTAMP");
    assert_eq!(Schema::Double.wire_str(), "DOUBLE");
    assert_eq!(Schema::Binary.wire_str(), "BINARY");
    assert_eq!(Schema::Long256.wire_str(), "LONG256");
}

#[test]
fn atomicity_wire_tokens() {
    assert_eq!(Atomicity::Strict.wire_str(), "strict");
    assert_eq!(Atomicity::Relaxed.wire_str(), "relaxed");
}

#[test]
fn schema_string_two_columns() {
    let cols = vec![
        ("id".to_string(), Schema::Int),
        ("ts".to_string(), Schema::Timestamp),
    ];
    assert_eq!(schema_string(&cols), "id=INT&ts=TIMESTAMP");
}

#[test]
fn schema_string_single_column_has_no_separator() {
    let cols = vec![("temp".to_string(), Schema::Double)];
    assert_eq!(schema_string(&cols), "temp=DOUBLE");
}

#[test]
fn schema_string_empty() {
    let cols: Vec<(String, Schema)> = vec![];
    assert_eq!(schema_string(&cols), "");
}

#[test]
fn schema_string_preserves_declaration_order() {
    let cols = vec![
        ("b".to_string(), Schema::Symbol),
        ("a".to_string(), Schema::Long),
        ("c".to_string(), Schema::Date),
    ];
    assert_eq!(schema_string(&cols), "b=SYMBOL&a=LONG&c=DATE");
}
