use arrow::datatypes::{DataType, Field, Schema};
use arrow::ffi::FFI_ArrowSchema;
use arrow_odbc_py::encoding::{into_text_encoding, TextEncoding};
use arrow_odbc_py::logging::{log_level, LogLevel};
use arrow_odbc_py::policy::reader_builder_from_c_args;

#[test]
fn codes_map_to_encodings() {
    assert_eq!(into_text_encoding(0), TextEncoding::Auto);
    assert_eq!(into_text_encoding(1), TextEncoding::Utf8);
    assert_eq!(into_text_encoding(2), TextEncoding::Utf16);
    assert_eq!(TextEncoding::from_code(0), Some(TextEncoding::Auto));
    assert_eq!(TextEncoding::from_code(1), Some(TextEncoding::Utf8));
    assert_eq!(TextEncoding::from_code(2), Some(TextEncoding::Utf16));
    assert_eq!(TextEncoding::from_code(3), None);
    assert_eq!(TextEncoding::from_code(255), None);
}

#[test]
fn encodings_map_back_to_their_codes() {
    for code in 0..=2u8 {
        assert_eq!(TextEncoding::from_code(code).unwrap().code(), code);
    }
}

#[test]
fn wide_characters_are_used_where_asked_for() {
    assert!(TextEncoding::Utf16.use_utf16());
    assert!(!TextEncoding::Utf8.use_utf16());
    assert_eq!(TextEncoding::Auto.use_utf16(), arrow_odbc::TextEncoding::Auto.use_utf16());
}

#[test]
fn zero_byte_cap_means_unbounded() {
    let policy = reader_builder_from_c_args(0, 0, 100, 0, false, 0, None);
    assert_eq!(policy.max_bytes_per_batch(), usize::MAX);
    assert_eq!(policy.max_num_rows_per_batch(), 100);
    assert!(policy.is_valid());
}

#[test]
fn byte_cap_is_kept() {
    let policy = reader_builder_from_c_args(0, 0, 100, 4096, false, 0, None);
    assert_eq!(policy.max_bytes_per_batch(), 4096);
    let policy = reader_builder_from_c_args(0, 0, 100, usize::MAX, false, 0, None);
    assert_eq!(policy.max_bytes_per_batch(), usize::MAX);
    let policy = reader_builder_from_c_args(0, 0, 100, 1, false, 0, None);
    assert_eq!(policy.max_bytes_per_batch(), 1);
}

#[test]
fn zero_size_ceilings_mean_none() {
    let policy = reader_builder_from_c_args(0, 0, 1, 0, false, 0, None);
    assert_eq!(policy.max_text_size(), None);
    assert_eq!(policy.max_binary_size(), None);
    let policy = reader_builder_from_c_args(4000, 0, 1, 0, false, 0, None);
    assert_eq!(policy.max_text_size(), Some(4000));
    assert_eq!(policy.max_binary_size(), None);
    let policy = reader_builder_from_c_args(0, 16, 1, 0, false, 0, None);
    assert_eq!(policy.max_text_size(), None);
    assert_eq!(policy.max_binary_size(), Some(16));
}

#[test]
fn zero_rows_make_the_policy_invalid() {
    let policy = reader_builder_from_c_args(0, 0, 0, 0, true, 2, None);
    assert!(!policy.is_valid());
    assert_eq!(policy.max_num_rows_per_batch(), 0);
    assert!(reader_builder_from_c_args(0, 0, 1, 0, true, 2, None).is_valid());
}

#[test]
fn flags_and_encoding_are_kept() {
    let policy = reader_builder_from_c_args(1, 2, 3, 4, true, 2, None);
    assert!(policy.fallibale_allocations());
    assert_eq!(policy.payload_text_encoding(), TextEncoding::Utf16);
    assert_eq!(policy.dbms_name(), None);
    let policy = reader_builder_from_c_args(1, 2, 3, 4, false, 1, None);
    assert!(!policy.fallibale_allocations());
    assert_eq!(policy.payload_text_encoding(), TextEncoding::Utf8);
}

#[test]
fn data_source_name_is_attached_unchanged() {
    let policy = reader_builder_from_c_args(1, 2, 3, 4, true, 0, None)
        .with_dbms_name("Microsoft SQL Server".to_string());
    assert_eq!(policy.dbms_name(), Some("Microsoft SQL Server"));
    assert_eq!(policy.max_num_rows_per_batch(), 3);
    assert_eq!(policy.max_bytes_per_batch(), 4);
    assert_eq!(policy.max_text_size(), Some(1));
    assert_eq!(policy.max_binary_size(), Some(2));
    let policy = policy.with_dbms_name("unknown".to_string());
    assert_eq!(policy.dbms_name(), Some("unknown"));
}

#[test]
fn supplied_schema_travels_with_the_policy() {
    let schema = Schema::new(vec![Field::new("a", DataType::Int64, true)]);
    let supplied = FFI_ArrowSchema::try_from(&schema).unwrap();
    let policy = reader_builder_from_c_args(0, 0, 5, 0, false, 0, Some(supplied));
    let (taken, policy) = policy.take_schema();
    assert_eq!(Schema::try_from(&taken.unwrap()).unwrap(), schema);
    let (nothing, policy) = policy.take_schema();
    assert!(nothing.is_none());
    assert_eq!(policy.max_num_rows_per_batch(), 5);
}

#[test]
fn log_levels_follow_the_numbers() {
    assert_eq!(log_level(0), LogLevel::Error);
    assert_eq!(log_level(1), LogLevel::Warn);
    assert_eq!(log_level(2), LogLevel::Info);
    assert_eq!(log_level(3), LogLevel::Debug);
    assert_eq!(log_level(4), LogLevel::Trace);
    assert_eq!(log_level(5), LogLevel::Trace);
    assert_eq!(log_level(u32::MAX), LogLevel::Trace);
}
