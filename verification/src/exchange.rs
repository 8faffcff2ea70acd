//! Hand-over of schemas and batches in the Arrow C data layout.
//!
//! A descriptor that still owns buffers is *live*; one that owns nothing is *released*. The
//! functions here move live descriptors into storage of the caller, so that exactly one side
//! owns each buffer at any time.
use arrow::array::{Array, StructArray};
use arrow::datatypes::Schema;
use arrow::error::ArrowError;
use arrow::ffi::{FFI_ArrowArray, FFI_ArrowSchema};
use arrow::record_batch::RecordBatch;
use vstd::prelude::*;

use crate::error::{truncated, ArrowOdbcError};

verus! {

/// A record batch as the reader fetched it. Verus cannot take `RecordBatch` itself, so the
/// batch travels in this struct, whose inside Verus does not read.
#[verifier::external_body]
pub struct FetchedBatch {
    pub batch: RecordBatch,
}

#[verifier::external_type_specification]
#[verifier::external_body]
pub struct ExSchema(Schema);

#[verifier::external_type_specification]
#[verifier::external_body]
pub struct ExArrowError(ArrowError);

#[verifier::external_type_specification]
#[verifier::external_body]
pub struct ExArrowArray(FFI_ArrowArray);

#[verifier::external_type_specification]
#[verifier::external_body]
pub struct ExArrowSchema(FFI_ArrowSchema);

/// Number of rows of a record batch.
pub uninterp spec fn batch_rows(batch: FetchedBatch) -> nat;

/// Number of columns of a record batch.
pub uninterp spec fn batch_columns(batch: FetchedBatch) -> nat;

/// Whether the C data layout can describe a record batch: whether the export of its data
/// type succeeds. It depends on the types of the columns alone.
pub uninterp spec fn batch_exportable(batch: FetchedBatch) -> bool;

/// What the error of the Arrow library prints where the export of a record batch fails.
pub uninterp spec fn batch_export_failure(batch: FetchedBatch) -> Seq<char>;

/// Number of fields of a schema.
pub uninterp spec fn schema_fields(schema: Schema) -> nat;

/// Whether the C data layout can describe a schema: whether its export succeeds. It
/// depends on the types, names and metadata of the schema alone.
pub uninterp spec fn schema_exportable(schema: Schema) -> bool;

/// What the error of the Arrow library prints where the export of a schema fails.
pub uninterp spec fn schema_export_failure(schema: Schema) -> Seq<char>;

/// Number of rows that an array descriptor announces.
pub uninterp spec fn array_rows(array: FFI_ArrowArray) -> nat;

/// Whether an array descriptor owns nothing: it has no release callback.
pub uninterp spec fn array_released(array: FFI_ArrowArray) -> bool;

/// Number of columns (children) that a schema descriptor announces.
pub uninterp spec fn schema_columns(schema: FFI_ArrowSchema) -> nat;

/// Whether a schema descriptor owns nothing: it has no release callback.
pub uninterp spec fn schema_released(schema: FFI_ArrowSchema) -> bool;

/// What `ArrowError`'s `Display` prints for an error.
pub uninterp spec fn arrow_error_text(error: ArrowError) -> Seq<char>;

/// `FFI_ArrowSchema::try_from` on `Schema::empty()`. The export of a schema without fields and
/// without metadata builds the struct format with no children and cannot fail; what comes
/// out has a release callback.
#[verifier::external_body]
fn export_empty_schema() -> (exported: Result<FFI_ArrowSchema, ArrowError>)
    ensures
        exported is Ok,
        exported matches Ok(schema) ==> schema_columns(schema) == 0 && !schema_released(schema),
{
    FFI_ArrowSchema::try_from(Schema::empty())
}

/// `FFI_ArrowSchema::try_from` on a schema. Whether it succeeds is decided by the schema.
/// Where it does, the descriptor has one child for each field and a release callback;
/// where it does not, the error is the one that belongs to the schema.
#[verifier::external_body]
fn export_schema(schema: &Schema) -> (exported: Result<FFI_ArrowSchema, ArrowError>)
    ensures
        exported is Ok <==> schema_exportable(*schema),
        exported matches Ok(out) ==> schema_columns(out) == schema_fields(*schema) && !schema_released(out),
        exported matches Err(error) ==> arrow_error_text(error) == schema_export_failure(*schema),
{
    FFI_ArrowSchema::try_from(schema)
}

/// `FFI_ArrowSchema::empty`: a descriptor with null pointers, no children and no release
/// callback.
#[verifier::external_body]
fn released_schema() -> (schema: FFI_ArrowSchema)
    ensures
        schema_released(schema),
        schema_columns(schema) == 0,
{
    FFI_ArrowSchema::empty()
}

/// `StructArray::from` on the batch, then `FFI_ArrowArray::new` on its data and
/// `FFI_ArrowSchema::try_from` on its data type. Whether the export of the data type succeeds is
/// decided by the types of the columns. Where it does, the array descriptor announces the
/// rows of the batch, the schema descriptor has one child for each column, and both have a
/// release callback; where it does not, the error is the one that belongs to the batch.
#[verifier::external_body]
fn export_batch(batch: FetchedBatch) -> (exported: Result<(FFI_ArrowArray, FFI_ArrowSchema), ArrowError>)
    ensures
        exported is Ok <==> batch_exportable(batch),
        exported matches Ok(pair) ==> array_rows(pair.0) == batch_rows(batch) && schema_columns(pair.1)
            == batch_columns(batch) && !array_released(pair.0) && !schema_released(pair.1),
        exported matches Err(error) ==> arrow_error_text(error) == batch_export_failure(batch),
{
    let data = StructArray::from(batch.batch).to_data();
    let array = FFI_ArrowArray::new(&data);
    let schema = FFI_ArrowSchema::try_from(data.data_type())?;
    Ok((array, schema))
}

/// `ArrowError`'s `Display`, as a string.
#[verifier::external_body]
fn arrow_error_message(error: &ArrowError) -> (message: String)
    ensures
        message@ == arrow_error_text(*error),
{
    format!("{error}")
}

/// The boundary error for a failure of the Arrow library.
pub fn conversion_error(error: &ArrowError) -> (out: ArrowOdbcError)
    ensures
        out.text() == truncated(arrow_error_text(*error)),
        out.wf(),
{
    let message = arrow_error_message(error);
    ArrowOdbcError::new(message.as_str())
}

/// One fetched batch in the C data layout: the descriptor of the buffers and the descriptor
/// of their layout. Both are live.
pub struct ColumnarBatch {
    pub array: FFI_ArrowArray,
    pub schema: FFI_ArrowSchema,
}

impl ColumnarBatch {
    /// Both descriptors own their buffers.
    pub open spec fn wf(&self) -> bool {
        !array_released(self.array) && !schema_released(self.schema)
    }

    /// Number of rows that the array descriptor announces.
    pub open spec fn rows(&self) -> nat {
        array_rows(self.array)
    }

    /// Number of columns that the schema descriptor announces.
    pub open spec fn columns(&self) -> nat {
        schema_columns(self.schema)
    }

    /// Whether this is the export of the record batch: live, with its rows and columns.
    pub open spec fn exports(&self, batch: FetchedBatch) -> bool {
        self.wf() && self.rows() == batch_rows(batch) && self.columns() == batch_columns(batch)
    }

    /// Exports a record batch in the C data layout. The export succeeds exactly for the
    /// batches that the layout can describe, and keeps their rows and columns. Any other
    /// batch gives the error of the Arrow library.
    pub fn from_record_batch(batch: FetchedBatch) -> (out: Result<ColumnarBatch, ArrowOdbcError>)
        ensures
            out is Ok <==> batch_exportable(batch),
            out matches Ok(exported) ==> exported.exports(batch),
            out matches Err(error) ==> error.wf() && error.text() == truncated(batch_export_failure(batch)),
    {
        match export_batch(batch) {
            Ok((array, schema)) => Ok(ColumnarBatch { array, schema }),
            Err(error) => Err(conversion_error(&error)),
        }
    }

    /// Moves the batch into the storage of the caller. Afterwards the caller owns the
    /// buffers; what the storage held before is dropped.
    pub fn swap_into(self, array: &mut FFI_ArrowArray, schema: &mut FFI_ArrowSchema)
        ensures
            *final(array) == self.array,
            *final(schema) == self.schema,
    {
        let mut batch = self;
        core::mem::swap(array, &mut batch.array);
        core::mem::swap(schema, &mut batch.schema);
    }
}

/// The schema of a result without columns. It is live, so that a consumer can import it,
/// and thereby differs from a released descriptor.
pub fn zero_column_schema() -> (out: Result<FFI_ArrowSchema, ArrowOdbcError>)
    ensures
        out matches Ok(schema) && schema_columns(schema) == 0 && !schema_released(schema),
{
    match export_empty_schema() {
        Ok(schema) => Ok(schema),
        Err(error) => Err(conversion_error(&error)),
    }
}

/// Exports a described schema in the C data layout. The export succeeds exactly for the
/// schemas that the layout can describe; the descriptor is live and has one column for each
/// field. Any other schema gives the error of the Arrow library.
pub fn schema_to_ffi(schema: &Schema) -> (out: Result<FFI_ArrowSchema, ArrowOdbcError>)
    ensures
        out is Ok <==> schema_exportable(*schema),
        out matches Ok(exported) ==> schema_columns(exported) == schema_fields(*schema) && !schema_released(
            exported,
        ),
        out matches Err(error) ==> error.wf() && error.text() == truncated(schema_export_failure(*schema)),
{
    match export_schema(schema) {
        Ok(exported) => Ok(exported),
        Err(error) => Err(conversion_error(&error)),
    }
}

/// Takes a schema out of the storage of the caller and leaves a released descriptor there:
/// the caller still frees the storage, but no longer the schema. Without storage there is
/// nothing to take.
pub fn take_schema(storage: Option<&mut FFI_ArrowSchema>) -> (taken: Option<FFI_ArrowSchema>)
    ensures
        storage is None ==> taken is None,
        storage matches Some(slot) ==> taken == Some(*slot) && schema_released(*final(slot))
            && schema_columns(*final(slot)) == 0,
{
    match storage {
        None => None,
        Some(slot) => {
            let mut schema = released_schema();
            core::mem::swap(slot, &mut schema);
            Some(schema)
        },
    }
}

/// Reports the outcome of a fetch by the convention of the boundary. A batch is moved into
/// the storage of the caller and the flag set to `1`. At the end of the result set the flag
/// is set to `0` and the storage left as it was. On failure the error comes back, and
/// neither the storage nor the flag is touched.
pub fn deliver_batch(
    outcome: Result<Option<ColumnarBatch>, ArrowOdbcError>,
    array: &mut FFI_ArrowArray,
    schema: &mut FFI_ArrowSchema,
    has_next_out: &mut i32,
) -> (error: Option<ArrowOdbcError>)
    ensures
        outcome matches Ok(Some(batch)) ==> error is None && *final(array) == batch.array && *final(schema)
            == batch.schema && *final(has_next_out) == 1,
        outcome matches Ok(None) ==> error is None && *final(array) == *old(array) && *final(schema) == *old(
            schema,
        ) && *final(has_next_out) == 0,
        outcome matches Err(failure) ==> error == Some(failure) && *final(array) == *old(array) && *final(schema)
            == *old(schema) && *final(has_next_out) == *old(has_next_out),
{
    match outcome {
        Ok(Some(batch)) => {
            batch.swap_into(array, schema);
            *has_next_out = 1;
            None
        },
        Ok(None) => {
            *has_next_out = 0;
            None
        },
        Err(failure) => Some(failure),
    }
}

} // verus!
