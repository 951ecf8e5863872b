//! Arrow's record batch and its IPC stream writer.
//!
//! Verus does not look inside either: what a batch holds and what a writer
//! has done have names, and each function says over those names what the
//! Arrow function that it calls does. The bytes of an IPC message take pages
//! to lay down, so they have names too: the same schema and the same columns
//! always give the same bytes.
//!
//! The writer writes into a buffer in memory, which takes every write. With
//! the options that `StreamWriter::try_new` sets (no compression, dictionaries
//! resent rather than refused), Arrow's writer then returns an error only for
//! a schema that it cannot encode, for a batch with other dictionaries than
//! its schema has, and once it is finished. The contracts below say so.

use std::sync::Arc;

use arrow::array::ArrayRef;
use arrow::datatypes::Schema;
use arrow::error::ArrowError;
use arrow::ipc::writer::StreamWriter;
use arrow::record_batch::RecordBatch;
use vstd::prelude::*;

use crate::columns::column_views;
use crate::columns::Column;
use crate::schema::schema_columns;
use crate::table::batch_accepts;
use crate::table::ColumnData;
use crate::table::ColumnSpec;
use crate::text::utf8_len;

verus! {

/// Arrow's `ArrowError`, carried through as it is.
#[verifier::external_type_specification]
#[verifier::external_body]
pub struct ExArrowError(ArrowError);

/// Arrow's `StreamWriter`, carried through as it is.
#[verifier::external_type_specification]
#[verifier::external_body]
#[verifier::reject_recursive_types(W)]
pub struct ExStreamWriter<W>(StreamWriter<W>);

/// Arrow's `RecordBatch`: columns of one length under a schema.
#[verifier::external_body]
pub struct Batch {
    pub(crate) inner: RecordBatch,
}

/// What a stream writer has done so far.
pub struct StreamState {
    /// The columns of the schema that the writer was made with.
    pub schema: Seq<ColumnSpec>,
    /// The bytes that the writer has handed to its sink, after what the sink
    /// held before.
    pub written: Seq<u8>,
    /// The number of batches written.
    pub batches: nat,
    /// Whether the end of the stream is written.
    pub finished: bool,
}

/// What the schema of a batch says of its columns.
pub uninterp spec fn batch_fields(batch: Batch) -> Seq<ColumnSpec>;

/// What the columns of a batch hold, in their order.
pub uninterp spec fn batch_columns(batch: Batch) -> Seq<ColumnData>;

/// What a writer into a buffer has done so far. `None` for a writer that was
/// not made by `StreamWriter::try_new` for an expressible schema.
pub uninterp spec fn stream_state(writer: StreamWriter<Vec<u8>>) -> Option<StreamState>;

/// The schema message that opens a stream, with its framing.
pub uninterp spec fn ipc_schema_message(fields: Seq<ColumnSpec>) -> Seq<u8>;

/// The messages that carry the first batch of a stream, with their framing:
/// one for each dictionary, then the batch itself.
pub uninterp spec fn ipc_batch_message(fields: Seq<ColumnSpec>, columns: Seq<ColumnData>) -> Seq<
    u8,
>;

/// The end-of-stream marker: a continuation marker and a length of zero.
pub open spec fn ipc_end_of_stream() -> Seq<u8> {
    seq![0xffu8, 0xffu8, 0xffu8, 0xffu8, 0u8, 0u8, 0u8, 0u8]
}

/// Whether a schema of these columns is small: at most 1024 columns with
/// names of at most 1024 bytes each. Arrow builds the schema message in a
/// buffer that must stay below two gigabytes, and panics beyond.
pub open spec fn schema_is_small(fields: Seq<ColumnSpec>) -> bool {
    &&& fields.len() <= 1024
    &&& forall|at: int| 0 <= at < fields.len() ==> utf8_len((#[trigger] fields[at]).name) <= 1024
}

/// `RecordBatch::try_new`: a batch of `columns` under an expressible `schema`.
/// Arrow accepts the columns where there is one for each field and at least
/// one, all have as many rows, each has the data type of its field, and no
/// column of a field that is not nullable holds a null; it returns an error
/// otherwise.
#[verifier::external_body]
pub(crate) fn batch_try_new(schema: &Schema, columns: Vec<Column>) -> (result: Result<
    Batch,
    ArrowError,
>)
    requires
        schema_columns(*schema) is Some,
    ensures
        result is Ok <==> batch_accepts(schema_columns(*schema)->0, column_views(columns@)),
        result matches Ok(batch) ==> batch_fields(batch) == schema_columns(*schema)->0
            && batch_columns(batch) == column_views(columns@),
{
    let arrays: Vec<ArrayRef> = columns.into_iter().map(|column| match column {
        Column::Utf8(column) => Arc::new(column.inner) as ArrayRef,
        Column::Dictionary(column) => Arc::new(column.inner) as ArrayRef,
        Column::UInt64(column) => Arc::new(column.inner) as ArrayRef,
        Column::TimestampSecond(column) => Arc::new(column.inner) as ArrayRef,
    }).collect();
    RecordBatch::try_new(Arc::new(schema.clone()), arrays).map(|inner| Batch { inner })
}

/// `StreamWriter::try_new` for an expressible schema: a writer that owns
/// `sink` and has written the schema message to it. Arrow refuses only a
/// schema with a dictionary of dictionaries, which is not expressible, and
/// the sink takes every write, so the call succeeds.
#[verifier::external_body]
pub(crate) fn stream_writer_try_new(sink: Vec<u8>, schema: &Schema) -> (result: Result<
    StreamWriter<Vec<u8>>,
    ArrowError,
>)
    requires
        schema_columns(*schema) matches Some(fields) && schema_is_small(fields),
    ensures
        result is Ok,
        result matches Ok(writer) ==> stream_state(writer) == Some(
            StreamState {
                schema: schema_columns(*schema)->0,
                written: sink@ + ipc_schema_message(schema_columns(*schema)->0),
                batches: 0,
                finished: false,
            },
        ),
{
    StreamWriter::try_new(sink, schema)
}

/// `StreamWriter::write`, for the first batch of a stream whose schema is
/// the batch's own: the writer writes the batch's dictionaries and the batch.
/// It returns an error where it is finished, and succeeds otherwise: it has a
/// dictionary id for each dictionary of the batch, replaces no dictionary,
/// compresses nothing, and the sink takes every write.
#[verifier::external_body]
pub(crate) fn stream_writer_write(writer: &mut StreamWriter<Vec<u8>>, batch: &Batch) -> (result:
    Result<(), ArrowError>)
    requires
        stream_state(*old(writer)) matches Some(state) && state.batches == 0 && state.schema
            == batch_fields(*batch),
    ensures
        result is Ok <==> !stream_state(*old(writer))->0.finished,
        result is Ok ==> stream_state(*final(writer)) == Some(
            StreamState {
                written: stream_state(*old(writer))->0.written + ipc_batch_message(
                    batch_fields(*batch),
                    batch_columns(*batch),
                ),
                batches: 1,
                ..stream_state(*old(writer))->0
            },
        ),
{
    writer.write(&batch.inner)
}

/// `StreamWriter::finish`: the writer writes the end-of-stream marker and is
/// finished. It returns an error where it was finished before, and succeeds
/// otherwise, as the sink takes every write.
#[verifier::external_body]
pub(crate) fn stream_writer_finish(writer: &mut StreamWriter<Vec<u8>>) -> (result: Result<
    (),
    ArrowError,
>)
    requires
        stream_state(*old(writer)) is Some,
    ensures
        result is Ok <==> !stream_state(*old(writer))->0.finished,
        result is Ok ==> stream_state(*final(writer)) == Some(
            StreamState {
                written: stream_state(*old(writer))->0.written + ipc_end_of_stream(),
                finished: true,
                ..stream_state(*old(writer))->0
            },
        ),
{
    writer.finish()
}

/// `StreamWriter::into_inner` on a finished writer: the sink, which holds
/// what it held before and what the writer has written. A finished writer
/// hands its sink out as it is, so the call succeeds.
#[verifier::external_body]
pub(crate) fn stream_writer_into_inner(writer: StreamWriter<Vec<u8>>) -> (result: Result<
    Vec<u8>,
    ArrowError,
>)
    requires
        stream_state(writer) matches Some(state) && state.finished,
    ensures
        result is Ok,
        result matches Ok(sink) ==> sink@ == stream_state(writer)->0.written,
{
    writer.into_inner()
}

} // verus!
