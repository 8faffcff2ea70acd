use arrow_odbc_py::connection::{
    append_attribute, connection_string_with_credentials, ArrowOdbcConnection,
};

#[test]
fn attribute_without_value_appends_nothing() {
    let mut connection_string = "Driver={X};".to_string();
    append_attribute("UID", &mut connection_string, None);
    assert_eq!(connection_string, "Driver={X};");
}

#[test]
fn plain_value_is_appended_as_it_is() {
    let mut connection_string = "Driver={X};".to_string();
    append_attribute("UID", &mut connection_string, Some("SA"));
    assert_eq!(connection_string, "Driver={X};UID=SA;");
    append_attribute("PWD", &mut connection_string, Some("ab}c"));
    assert_eq!(connection_string, "Driver={X};UID=SA;PWD=ab}c;");
}

#[test]
fn value_with_separator_is_wrapped() {
    let mut connection_string = String::new();
    append_attribute("PWD", &mut connection_string, Some("abc;123}"));
    assert_eq!(connection_string, "PWD={abc;123}}};");
    let mut connection_string = String::new();
    append_attribute("PWD", &mut connection_string, Some("a}b;c"));
    assert_eq!(connection_string, "PWD={a}}b;c};");
    let mut connection_string = String::new();
    append_attribute("PWD", &mut connection_string, Some("ab+c"));
    assert_eq!(connection_string, "PWD={ab+c};");
}

#[test]
fn empty_value_is_appended() {
    let mut connection_string = "DSN=x;".to_string();
    append_attribute("PWD", &mut connection_string, Some(""));
    assert_eq!(connection_string, "DSN=x;PWD=;");
}

#[test]
fn credentials_follow_the_connection_string() {
    let base = "Driver={ODBC Driver 18 for SQL Server};Server=localhost;";
    assert_eq!(
        connection_string_with_credentials(base, Some("SA"), Some("abc;123}")),
        "Driver={ODBC Driver 18 for SQL Server};Server=localhost;UID=SA;PWD={abc;123}}};"
    );
    assert_eq!(connection_string_with_credentials(base, None, None), base);
    assert_eq!(
        connection_string_with_credentials("DSN=x;", None, Some("p")),
        "DSN=x;PWD=p;"
    );
    assert_eq!(
        connection_string_with_credentials("DSN=x;", Some("u+v"), None),
        "DSN=x;UID={u+v};"
    );
}

#[test]
fn connection_is_taken_once() {
    let mut wrapper = ArrowOdbcConnection::new(41);
    assert!(wrapper.is_held());
    assert_eq!(wrapper.take(), 41);
    assert!(!wrapper.is_held());
}
