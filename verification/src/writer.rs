//! The encoder: change records in, one IPC stream out.
//!
//! A stream is a schema message, one batch with a row for each record, and
//! the end-of-stream marker. It is built in a buffer of its own and reaches
//! the sink in one piece. Encoding succeeds whenever the paths fit their
//! column; where they do not, the sink is left as it was.

use arrow::datatypes::Field;
use arrow::datatypes::Schema;
use arrow::error::ArrowError;
use vstd::prelude::*;

use crate::columns::column_views;
use crate::columns::dictionary_from_iter;
use crate::columns::label_texts;
use crate::columns::seconds_builder_append_null;
use crate::columns::seconds_builder_append_value;
use crate::columns::seconds_builder_finish;
use crate::columns::seconds_builder_items;
use crate::columns::seconds_builder_new;
use crate::columns::u64_builder_append_null;
use crate::columns::u64_builder_append_value;
use crate::columns::u64_builder_finish;
use crate::columns::u64_builder_items;
use crate::columns::u64_builder_new;
use crate::columns::utf8_builder_append_value;
use crate::columns::utf8_builder_finish;
use crate::columns::utf8_builder_items;
use crate::columns::utf8_builder_new;
use crate::columns::Column;
use crate::row::rows_of;
use crate::row::RowView;
use crate::row::StatusEntry;
use crate::schema::field_new;
use crate::schema::schema_columns;
use crate::schema::schema_new;
use crate::stream::batch_columns;
use crate::stream::batch_fields;
use crate::stream::batch_try_new;
use crate::stream::ipc_batch_message;
use crate::stream::ipc_end_of_stream;
use crate::stream::ipc_schema_message;
use crate::stream::schema_is_small;
use crate::stream::stream_writer_finish;
use crate::stream::stream_writer_into_inner;
use crate::stream::stream_writer_try_new;
use crate::stream::stream_writer_write;
use crate::stream::Batch;
use crate::table::extension_column;
use crate::table::family_column;
use crate::table::lemma_dictionaries_compact;
use crate::table::lemma_extensions_fit;
use crate::table::lemma_output_names_short;
use crate::table::lemma_table_accepted;
use crate::table::modified_column;
use crate::table::output_columns;
use crate::table::path_column;
use crate::table::size_column;
use crate::table::status_column;
use crate::table::table_columns;
use crate::table::table_fits;
use crate::table::ColumnKind;
use crate::text::lemma_total_utf8_len_prefix;
use crate::text::total_utf8_len;

verus! {

/// Why no stream was written.
#[derive(Debug)]
pub enum EncodeError {
    /// The paths take more bytes than a column of text can address.
    ColumnOverflow,
    /// A stream writer reported an error. `deliver` passes such an error on;
    /// `status2arrow_ipc_stream_writer` never meets one.
    Stream(ArrowError),
}

/// The most bytes that a column of text can hold.
pub const UTF8_COLUMN_LIMIT: usize = 0x7fff_ffff;

/// The stream that holds `rows`: the schema, one batch, the end marker.
pub open spec fn encoded_stream(rows: Seq<RowView>) -> Seq<u8> {
    ipc_schema_message(output_columns()) + ipc_batch_message(
        output_columns(),
        table_columns(rows),
    ) + ipc_end_of_stream()
}

/// The schema of the output: six columns in their order on the wire.
pub fn get_arrow_schema() -> (schema: Schema)
    ensures
        schema_columns(schema) == Some(output_columns()),
{
    let mut fields: Vec<Field> = Vec::new();
    fields.push(field_new("path", ColumnKind::Utf8, false));
    fields.push(field_new("status", ColumnKind::Dictionary, false));
    fields.push(field_new("item_type", ColumnKind::Dictionary, false));
    fields.push(field_new("extension", ColumnKind::Utf8, true));
    fields.push(field_new("size", ColumnKind::UInt64, true));
    fields.push(field_new("last_modification_time", ColumnKind::TimestampSecond, true));
    let schema = schema_new(fields);
    assert(schema_columns(schema)->0 == output_columns());
    schema
}

/// Whether the paths of `items` fit a column of text.
pub fn paths_fit(items: &[StatusEntry]) -> (fit: bool)
    ensures
        fit == table_fits(rows_of(items@)),
{
    let ghost paths = path_column(rows_of(items@));
    let mut bytes: usize = 0;
    let mut at: usize = 0;
    while at < items.len()
        invariant
            at <= items.len(),
            paths == path_column(rows_of(items@)),
            bytes == total_utf8_len(paths.take(at as int)),
            bytes <= UTF8_COLUMN_LIMIT,
        decreases items.len() - at,
    {
        let len = items[at].item.path().as_bytes().len();
        proof {
            assert(paths.take(at as int + 1).drop_last() == paths.take(at as int));
            lemma_total_utf8_len_prefix(paths, at as int + 1);
        }
        if len > UTF8_COLUMN_LIMIT - bytes {
            return false;
        }
        bytes = bytes + len;
        at = at + 1;
    }
    assert(paths.take(at as int) == paths);
    true
}

/// Fills the six columns with the rows of `items`, in the order of the
/// records, and encodes the two columns of labels.
fn encode_columns(items: &[StatusEntry]) -> (columns: Vec<Column>)
    requires
        table_fits(rows_of(items@)),
    ensures
        column_views(columns@) == table_columns(rows_of(items@)),
{
    let ghost rows = rows_of(items@);
    let mut path_builder = utf8_builder_new();
    let mut extension_builder = utf8_builder_new();
    let mut size_builder = u64_builder_new();
    let mut modified_builder = seconds_builder_new();
    let mut statuses: Vec<&'static str> = Vec::new();
    let mut families: Vec<&'static str> = Vec::new();
    let mut at: usize = 0;
    while at < items.len()
        invariant
            at <= items.len(),
            rows == rows_of(items@),
            table_fits(rows),
            utf8_builder_items(path_builder) == path_column(rows).take(at as int),
            utf8_builder_items(extension_builder) == extension_column(rows).take(at as int),
            u64_builder_items(size_builder) == size_column(rows).take(at as int),
            seconds_builder_items(modified_builder) == modified_column(rows).take(at as int),
            label_texts(statuses@) == status_column(rows).take(at as int),
            label_texts(families@) == family_column(rows).take(at as int),
        decreases items.len() - at,
    {
        let row = items[at].assemble();
        let ghost next = at as int + 1;
        proof {
            assert(row@ == rows[at as int]);
            assert(path_column(rows).take(next).drop_last() == path_column(rows).take(at as int));
            assert(extension_column(rows).take(next).drop_last() == extension_column(rows).take(
                at as int,
            ));
            lemma_total_utf8_len_prefix(path_column(rows), next);
            lemma_extensions_fit(items@, next);
        }
        utf8_builder_append_value(&mut path_builder, row.path.as_str());
        utf8_builder_append_value(&mut extension_builder, row.extension.as_str());
        match row.size {
            Some(size) => u64_builder_append_value(&mut size_builder, size),
            None => u64_builder_append_null(&mut size_builder),
        }
        match row.modified_at {
            Some(seconds) => seconds_builder_append_value(&mut modified_builder, seconds),
            None => seconds_builder_append_null(&mut modified_builder),
        }
        let ghost statuses_before = statuses@;
        let ghost families_before = families@;
        statuses.push(row.status.label());
        families.push(row.family.label());
        proof {
            assert(utf8_builder_items(path_builder) == path_column(rows).take(next));
            assert(utf8_builder_items(extension_builder) == extension_column(rows).take(next));
            assert(u64_builder_items(size_builder) == size_column(rows).take(next));
            assert(seconds_builder_items(modified_builder) == modified_column(rows).take(next));
            assert(label_texts(statuses@) == label_texts(statuses_before).push(
                rows[at as int].status.label_text(),
            ));
            assert(label_texts(families@) == label_texts(families_before).push(
                rows[at as int].family.label_text(),
            ));
            assert(label_texts(statuses@) == status_column(rows).take(next));
            assert(label_texts(families@) == family_column(rows).take(next));
        }
        at = at + 1;
    }
    proof {
        assert(path_column(rows).take(at as int) == path_column(rows));
        assert(extension_column(rows).take(at as int) == extension_column(rows));
        assert(size_column(rows).take(at as int) == size_column(rows));
        assert(modified_column(rows).take(at as int) == modified_column(rows));
        assert(status_column(rows).take(at as int) == status_column(rows));
        assert(family_column(rows).take(at as int) == family_column(rows));
        lemma_dictionaries_compact(rows);
    }
    let mut columns: Vec<Column> = Vec::new();
    columns.push(Column::Utf8(utf8_builder_finish(&mut path_builder)));
    columns.push(Column::Dictionary(dictionary_from_iter(&statuses)));
    columns.push(Column::Dictionary(dictionary_from_iter(&families)));
    columns.push(Column::Utf8(utf8_builder_finish(&mut extension_builder)));
    columns.push(Column::UInt64(u64_builder_finish(&mut size_builder)));
    columns.push(Column::TimestampSecond(seconds_builder_finish(&mut modified_builder)));
    assert(column_views(columns@) == table_columns(rows));
    columns
}

/// Writes one stream into a buffer of its own: the schema, the batch, the
/// end marker. The buffer takes every write and the batch is the first of a
/// stream of its own schema, so Arrow's writer succeeds, and the buffer holds
/// exactly the stream.
fn write_stream(schema: &Schema, batch: &Batch) -> (result: Result<Vec<u8>, ArrowError>)
    requires
        schema_columns(*schema) == Some(batch_fields(*batch)),
        schema_is_small(batch_fields(*batch)),
    ensures
        result is Ok,
        result matches Ok(stream) ==> stream@ == ipc_schema_message(batch_fields(*batch))
            + ipc_batch_message(batch_fields(*batch), batch_columns(*batch))
            + ipc_end_of_stream(),
{
    let mut writer = stream_writer_try_new(Vec::new(), schema)?;
    stream_writer_write(&mut writer, batch)?;
    stream_writer_finish(&mut writer)?;
    let stream = stream_writer_into_inner(writer)?;
    assert(stream@ == ipc_schema_message(batch_fields(*batch)) + ipc_batch_message(
        batch_fields(*batch),
        batch_columns(*batch),
    ) + ipc_end_of_stream());
    Ok(stream)
}

/// Hands a finished stream to the sink, or reports why there is none.
///
/// A stream is appended to the sink whole. An error of the stream writer
/// leaves the sink as it was and is passed on.
pub fn deliver(stream: Result<Vec<u8>, ArrowError>, wtr: &mut Vec<u8>) -> (result: Result<
    (),
    EncodeError,
>)
    ensures
        stream matches Ok(bytes) ==> result is Ok && final(wtr)@ == old(wtr)@ + bytes@,
        stream matches Err(error) ==> result == Err::<(), EncodeError>(EncodeError::Stream(error))
            && final(wtr)@ == old(wtr)@,
{
    match stream {
        Ok(mut bytes) => {
            wtr.append(&mut bytes);
            Ok(())
        },
        Err(error) => Err(EncodeError::Stream(error)),
    }
}

/// Encodes the status of a working tree as one IPC stream and appends it to
/// `wtr`.
///
/// The stream holds the schema, one batch with a row for each record of
/// `items` in their order, and the end-of-stream marker. The call succeeds
/// exactly where the paths fit their column: the schema and the columns
/// always agree, so building the batch cannot fail, and the writer writes
/// into memory, so writing cannot fail either. Where the paths do not fit,
/// the call fails with `ColumnOverflow` and leaves the sink as it was.
pub fn status2arrow_ipc_stream_writer(items: &[StatusEntry], wtr: &mut Vec<u8>) -> (result:
    Result<(), EncodeError>)
    ensures
        result is Ok <==> table_fits(rows_of(items@)),
        result is Ok ==> final(wtr)@ == old(wtr)@ + encoded_stream(rows_of(items@)),
        result matches Err(error) ==> error is ColumnOverflow && final(wtr)@ == old(wtr)@,
{
    if !paths_fit(items) {
        return Err(EncodeError::ColumnOverflow);
    }
    let schema = get_arrow_schema();
    let columns = encode_columns(items);
    proof {
        lemma_table_accepted(rows_of(items@));
        lemma_output_names_short();
    }
    let batch = batch_try_new(&schema, columns).unwrap();
    deliver(write_stream(&schema, &batch), wtr)
}

} // verus!
