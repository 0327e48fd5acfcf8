use feed_ingest::error::Error as BasicError;
use feed_ingest::shared::errors::{Error, ErrorType};

#[test]
fn error_keeps_kind_and_place() {
    let error = Error::new(ErrorType::XmlBadFormat, "feed.rs", 12, 5);
    assert_eq!(error.error, ErrorType::XmlBadFormat);
    assert_eq!(error.context.file, "feed.rs");
    assert_eq!(error.context.line, 12);
    assert_eq!(error.context.column, 5);
}

#[test]
fn store_not_open_kind() {
    assert_eq!(ErrorType::store_not_open(), ErrorType::Model("DB NOT OPEN".to_string()));
}

#[test]
fn store_operation_failed_carries_the_diagnostic() {
    assert_eq!(
        ErrorType::store_operation_failed("no such table: feed".to_string()),
        ErrorType::Model("no such table: feed".to_string())
    );
}

#[test]
fn text_becomes_a_custom_error() {
    assert_eq!(BasicError::from("boom".to_string()), BasicError::Custom("boom".to_string()));
}
