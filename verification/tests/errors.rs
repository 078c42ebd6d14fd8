use questdb::{Error, SQLError};

#[test]
fn message_for_sql_error() {
    let e = Error::SQLError(SQLError {
        query: "bad sql".to_string(),
        error: "unexpected token".to_string(),
        position: 7,
    });
    assert_eq!(
        e.message(),
        "Error 'unexpected token' with 'bad sql' at position '7'"
    );
}

#[test]
fn message_for_sql_error_negative_position() {
    let e = Error::SQLError(SQLError {
        query: "q".to_string(),
        error: "e".to_string(),
        position: -42,
    });
    assert_eq!(e.message(), "Error 'e' with 'q' at position '-42'");
}

#[test]
fn message_for_transport_error() {
    let e = Error::ExecError("connection refused".to_string());
    assert_eq!(e.message(), "Error executing query: connection refused");
}

#[test]
fn message_for_deserialize_error() {
    let e = Error::DeserializeError("expected value at line 1".to_string());
    assert_eq!(
        e.message(),
        "Error deserializing json: expected value at line 1"
    );
}

#[test]
fn message_for_file_error() {
    let e = Error::FileError("no such file".to_string());
    assert_eq!(e.message(), "Failed to open file: no such file");
}
