use std::sync::Arc;

use arrow::array::{ArrayRef, Int32Array, StringArray};
use arrow::datatypes::{DataType, Field, Schema};
use arrow::ffi::{FFI_ArrowArray, FFI_ArrowSchema};
use arrow::record_batch::RecordBatch;
use arrow_odbc_py::exchange::{
    schema_to_ffi, take_schema, zero_column_schema, ColumnarBatch, FetchedBatch,
};

fn two_columns() -> Schema {
    Schema::new(vec![
        Field::new("id", DataType::Int32, false),
        Field::new("name", DataType::Utf8, true),
    ])
}

fn batch_of(ids: Vec<i32>) -> RecordBatch {
    let names: Vec<String> = ids.iter().map(|id| format!("row {id}")).collect();
    let columns: Vec<ArrayRef> = vec![
        Arc::new(Int32Array::from(ids)),
        Arc::new(StringArray::from(names)),
    ];
    RecordBatch::try_new(Arc::new(two_columns()), columns).unwrap()
}

#[test]
fn zero_column_schema_is_live_and_has_no_children() {
    let schema = zero_column_schema().ok().unwrap();
    assert!(schema.release().is_some());
    assert_eq!(schema.children().count(), 0);
    assert_eq!(schema.format(), "+s");
    let imported = Schema::try_from(&schema).unwrap();
    assert_eq!(imported.fields().len(), 0);
}

#[test]
fn exported_schema_round_trips() {
    let schema = two_columns();
    let exported = schema_to_ffi(&schema).ok().unwrap();
    assert!(exported.release().is_some());
    assert_eq!(exported.children().count(), 2);
    assert_eq!(Schema::try_from(&exported).unwrap(), schema);
}

#[test]
fn exported_batch_keeps_its_rows() {
    let exported = ColumnarBatch::from_record_batch(FetchedBatch { batch: batch_of(vec![1, 2, 3]) })
        .ok()
        .unwrap();
    assert_eq!(exported.array.len(), 3);
    assert!(!exported.array.is_released());
    assert_eq!(exported.array.num_children(), 2);
    assert_eq!(exported.schema.children().count(), 2);
    assert!(exported.schema.release().is_some());
}

#[test]
fn swap_into_moves_the_batch_to_the_caller() {
    let exported = ColumnarBatch::from_record_batch(FetchedBatch { batch: batch_of(vec![7, 8]) })
        .ok()
        .unwrap();
    let mut array = FFI_ArrowArray::empty();
    let mut schema = FFI_ArrowSchema::empty();
    exported.swap_into(&mut array, &mut schema);
    assert_eq!(array.len(), 2);
    assert!(!array.is_released());
    assert_eq!(Schema::try_from(&schema).unwrap(), two_columns());
}

#[test]
fn take_schema_leaves_a_released_descriptor() {
    let mut storage = FFI_ArrowSchema::try_from(&two_columns()).unwrap();
    let taken = take_schema(Some(&mut storage)).unwrap();
    assert!(storage.release().is_none());
    assert_eq!(storage.children().count(), 0);
    assert_eq!(Schema::try_from(&taken).unwrap(), two_columns());
}

#[test]
fn take_schema_without_storage_takes_nothing() {
    assert!(take_schema(None).is_none());
}

#[test]
fn delivered_batch_reaches_the_caller() {
    let exported = ColumnarBatch::from_record_batch(FetchedBatch { batch: batch_of(vec![1, 2, 3]) })
        .ok()
        .unwrap();
    let mut array = FFI_ArrowArray::empty();
    let mut schema = FFI_ArrowSchema::empty();
    let mut has_next = -1;
    let error = arrow_odbc_py::exchange::deliver_batch(
        Ok(Some(exported)),
        &mut array,
        &mut schema,
        &mut has_next,
    );
    assert!(error.is_none());
    assert_eq!(has_next, 1);
    assert_eq!(array.len(), 3);
    assert!(schema.release().is_some());
}

#[test]
fn end_of_results_sets_the_flag_only() {
    let mut array = FFI_ArrowArray::empty();
    let mut schema = FFI_ArrowSchema::empty();
    let mut has_next = -1;
    let error = arrow_odbc_py::exchange::deliver_batch(Ok(None), &mut array, &mut schema, &mut has_next);
    assert!(error.is_none());
    assert_eq!(has_next, 0);
    assert!(array.is_released());
    assert!(schema.release().is_none());
}

#[test]
fn failed_fetch_touches_no_output() {
    let mut array = FFI_ArrowArray::empty();
    let mut schema = FFI_ArrowSchema::empty();
    let mut has_next = -1;
    let failure = arrow_odbc_py::error::ArrowOdbcError::new("fetch failed");
    let error = arrow_odbc_py::exchange::deliver_batch(Err(failure), &mut array, &mut schema, &mut has_next);
    assert_eq!(error.unwrap().message(), "fetch failed");
    assert_eq!(has_next, -1);
    assert!(array.is_released());
    assert!(schema.release().is_none());
}

#[test]
fn conversion_error_carries_the_message_of_the_arrow_library() {
    let error = arrow::error::ArrowError::CDataInterface("no such type".to_string());
    let expected = error.to_string();
    assert_eq!(arrow_odbc_py::exchange::conversion_error(&error).message(), expected);
}

#[test]
fn batch_without_rows_is_exported() {
    let exported = ColumnarBatch::from_record_batch(FetchedBatch { batch: batch_of(vec![]) })
        .ok()
        .unwrap();
    assert_eq!(exported.array.len(), 0);
    assert!(!exported.array.is_released());
}

fn time_in_microseconds() -> Schema {
    Schema::new(vec![
        Field::new("id", DataType::Int32, false),
        Field::new("at", DataType::Time32(arrow::datatypes::TimeUnit::Microsecond), false),
    ])
}

#[test]
fn schema_that_the_layout_cannot_describe_is_an_error() {
    let schema = time_in_microseconds();
    let expected = FFI_ArrowSchema::try_from(&schema).err().unwrap().to_string();
    let error = schema_to_ffi(&schema).err().unwrap();
    assert_eq!(error.message(), expected);
    assert!(error.message().contains("Time32(µs)") || error.message().contains("Time32"));
}

#[test]
fn batch_that_the_layout_cannot_describe_is_an_error() {
    let schema = Arc::new(Schema::new(vec![Field::new("a\0b", DataType::Int32, false)]));
    let columns: Vec<ArrayRef> = vec![Arc::new(Int32Array::from(vec![1, 2]))];
    let batch = RecordBatch::try_new(schema.clone(), columns).unwrap();
    let data_type = DataType::Struct(schema.fields().clone());
    let expected = FFI_ArrowSchema::try_from(&data_type).err().unwrap().to_string();
    let error = ColumnarBatch::from_record_batch(FetchedBatch { batch }).err().unwrap();
    assert_eq!(error.message(), expected);
    assert!(error.message().contains("Null byte"));
}

#[test]
fn exported_batch_keeps_its_columns() {
    let exported = ColumnarBatch::from_record_batch(FetchedBatch { batch: batch_of(vec![4]) })
        .ok()
        .unwrap();
    assert_eq!(exported.schema.children().count(), batch_of(vec![4]).num_columns());
    assert_eq!(exported.array.len(), batch_of(vec![4]).num_rows());
}
