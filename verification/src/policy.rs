//! The fetch policy: how many rows and bytes one fetch may bring, and how large a value of a
//! column of unbounded size may be.
use arrow::ffi::FFI_ArrowSchema;
use vstd::prelude::*;

use crate::encoding::{encoding_of_code, into_text_encoding, TextEncoding};

verus! {

/// A size cap of the boundary, where `0` stands for "no cap": the cap itself, or the largest
/// size there is.
pub open spec fn normalized_cap(cap: usize) -> usize {
    if cap == 0 {
        usize::MAX
    } else {
        cap
    }
}

/// A size ceiling of the boundary, where `0` stands for "no ceiling".
pub open spec fn optional_ceiling(size: usize) -> Option<usize> {
    if size == 0 {
        None
    } else {
        Some(size)
    }
}

/// Configuration of the buffers that a reader binds to a cursor. It is made once for each
/// binding and not changed afterwards.
pub struct FetchPolicy {
    max_num_rows_per_batch: usize,
    max_bytes_per_batch: usize,
    max_text_size: Option<usize>,
    max_binary_size: Option<usize>,
    fallibale_allocations: bool,
    payload_text_encoding: TextEncoding,
    dbms_name: Option<String>,
    schema: Option<FFI_ArrowSchema>,
}

/// What a policy holds, as plain values.
pub struct FetchPolicyView {
    pub max_num_rows_per_batch: usize,
    pub max_bytes_per_batch: usize,
    pub max_text_size: Option<usize>,
    pub max_binary_size: Option<usize>,
    pub fallibale_allocations: bool,
    pub payload_text_encoding: TextEncoding,
    pub dbms_name: Option<Seq<char>>,
    pub schema: Option<FFI_ArrowSchema>,
}

impl FetchPolicyView {
    /// A policy can bind buffers only if a batch may hold at least one row and one byte.
    pub open spec fn valid(self) -> bool {
        self.max_num_rows_per_batch > 0 && self.max_bytes_per_batch > 0
    }
}

impl View for FetchPolicy {
    type V = FetchPolicyView;

    closed spec fn view(&self) -> FetchPolicyView {
        FetchPolicyView {
            max_num_rows_per_batch: self.max_num_rows_per_batch,
            max_bytes_per_batch: self.max_bytes_per_batch,
            max_text_size: self.max_text_size,
            max_binary_size: self.max_binary_size,
            fallibale_allocations: self.fallibale_allocations,
            payload_text_encoding: self.payload_text_encoding,
            dbms_name: match self.dbms_name {
                Some(name) => Some(name@),
                None => None,
            },
            schema: self.schema,
        }
    }
}

impl FetchPolicy {
    /// Whether buffers can be bound under this policy.
    pub fn is_valid(&self) -> (valid: bool)
        ensures
            valid == self@.valid(),
    {
        self.max_num_rows_per_batch > 0 && self.max_bytes_per_batch > 0
    }

    /// Upper bound for the rows of one batch.
    pub fn max_num_rows_per_batch(&self) -> (rows: usize)
        ensures
            rows == self@.max_num_rows_per_batch,
    {
        self.max_num_rows_per_batch
    }

    /// Upper bound for the bytes of one batch; `usize::MAX` where there is none.
    pub fn max_bytes_per_batch(&self) -> (bytes: usize)
        ensures
            bytes == self@.max_bytes_per_batch,
    {
        self.max_bytes_per_batch
    }

    /// Ceiling for the size of a value of a text column, if there is one.
    pub fn max_text_size(&self) -> (size: Option<usize>)
        ensures
            size == self@.max_text_size,
    {
        self.max_text_size
    }

    /// Ceiling for the size of a value of a binary column, if there is one.
    pub fn max_binary_size(&self) -> (size: Option<usize>)
        ensures
            size == self@.max_binary_size,
    {
        self.max_binary_size
    }

    /// Whether a buffer that cannot be allocated is reported, rather than fatal.
    pub fn fallibale_allocations(&self) -> (fallible: bool)
        ensures
            fallible == self@.fallibale_allocations,
    {
        self.fallibale_allocations
    }

    /// Encoding of text in payloads.
    pub fn payload_text_encoding(&self) -> (encoding: TextEncoding)
        ensures
            encoding == self@.payload_text_encoding,
    {
        self.payload_text_encoding
    }

    /// Name of the data source under which workarounds are looked up, once it is known.
    pub fn dbms_name(&self) -> (name: Option<&str>)
        ensures
            name is Some == self@.dbms_name is Some,
            name matches Some(text) ==> Some(text@) == self@.dbms_name,
    {
        match &self.dbms_name {
            Some(name) => Some(name.as_str()),
            None => None,
        }
    }

    /// The same policy for the data source of the given name. Workarounds are looked up
    /// under exactly this name when buffers are bound.
    pub fn with_dbms_name(self, dbms_name: String) -> (out: FetchPolicy)
        ensures
            out@ == (FetchPolicyView { dbms_name: Some(dbms_name@), ..self@ }),
    {
        let mut policy = self;
        policy.dbms_name = Some(dbms_name);
        policy
    }

    /// Hands out the schema that the caller supplied, if there is one, and what is left of
    /// the policy.
    pub fn take_schema(self) -> (out: (Option<FFI_ArrowSchema>, FetchPolicy))
        ensures
            out.0 == self@.schema,
            out.1@ == (FetchPolicyView { schema: None, ..self@ }),
    {
        let mut policy = self;
        let schema = policy.schema.take();
        (schema, policy)
    }
}

/// The policy for the scalars of the boundary. A byte cap of `0` means that bytes are not
/// capped, a size ceiling of `0` that there is no ceiling. The row cap is taken as it is: a
/// policy with a row cap of `0` is not valid, and no buffers are bound under it.
pub fn reader_builder_from_c_args(
    max_text_size: usize,
    max_binary_size: usize,
    max_num_rows_per_batch: usize,
    max_bytes_per_batch: usize,
    fallibale_allocations: bool,
    payload_text_encoding: u8,
    schema: Option<FFI_ArrowSchema>,
) -> (policy: FetchPolicy)
    requires
        payload_text_encoding <= 2,
    ensures
        policy@ == (FetchPolicyView {
            max_num_rows_per_batch,
            max_bytes_per_batch: normalized_cap(max_bytes_per_batch),
            max_text_size: optional_ceiling(max_text_size),
            max_binary_size: optional_ceiling(max_binary_size),
            fallibale_allocations,
            payload_text_encoding: encoding_of_code(payload_text_encoding).unwrap(),
            dbms_name: None,
            schema,
        }),
        policy@.valid() <==> max_num_rows_per_batch > 0,
{
    FetchPolicy {
        max_num_rows_per_batch,
        max_bytes_per_batch: if max_bytes_per_batch == 0 {
            usize::MAX
        } else {
            max_bytes_per_batch
        },
        max_text_size: if max_text_size != 0 {
            Some(max_text_size)
        } else {
            None
        },
        max_binary_size: if max_binary_size != 0 {
            Some(max_binary_size)
        } else {
            None
        },
        fallibale_allocations,
        payload_text_encoding: into_text_encoding(payload_text_encoding),
        dbms_name: None,
        schema,
    }
}

} // verus!
