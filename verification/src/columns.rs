//! Arrow's column builders and the columns that they make.
//!
//! Each type here keeps one Arrow value in a field that is private to this
//! crate, so that a column can only be what the functions of this file made
//! it. Verus does not look inside: what a builder or a column holds has a
//! name, and each function says over those names what the Arrow method that
//! it calls does.

use arrow::array::DictionaryArray;
use arrow::array::StringArray;
use arrow::array::StringBuilder;
use arrow::array::TimestampSecondArray;
use arrow::array::TimestampSecondBuilder;
use arrow::array::UInt64Array;
use arrow::array::UInt64Builder;
use arrow::datatypes::Int32Type;
use vstd::prelude::*;

use crate::dictionary::dictionary_keys;
use crate::dictionary::first_seen;
use crate::table::ColumnData;
use crate::text::total_utf8_len;
use crate::text::utf8_len;

verus! {

/// Arrow's `StringBuilder`: a column of text in the making.
#[verifier::external_body]
pub struct Utf8Builder {
    pub(crate) inner: StringBuilder,
}

/// Arrow's `StringArray`: a column of text.
#[verifier::external_body]
pub struct Utf8Column {
    pub(crate) inner: StringArray,
}

/// Arrow's `UInt64Builder`: a column of unsigned integers in the making.
#[verifier::external_body]
pub struct U64Builder {
    pub(crate) inner: UInt64Builder,
}

/// Arrow's `UInt64Array`: a column of unsigned integers.
#[verifier::external_body]
pub struct U64Column {
    pub(crate) inner: UInt64Array,
}

/// Arrow's `TimestampSecondBuilder`: a column of timestamps in the making.
#[verifier::external_body]
pub struct SecondsBuilder {
    pub(crate) inner: TimestampSecondBuilder,
}

/// Arrow's `TimestampSecondArray`: a column of timestamps in whole seconds,
/// with no time zone.
#[verifier::external_body]
pub struct SecondsColumn {
    pub(crate) inner: TimestampSecondArray,
}

/// Arrow's `DictionaryArray<Int32Type>` over text: a column of labels in
/// dictionary encoding.
#[verifier::external_body]
pub struct DictionaryColumn {
    pub(crate) inner: DictionaryArray<Int32Type>,
}

/// The texts appended to a builder since it was made or last finished.
pub uninterp spec fn utf8_builder_items(builder: Utf8Builder) -> Seq<Seq<char>>;

/// The texts of a column, row by row. No row is null.
pub uninterp spec fn utf8_column_items(column: Utf8Column) -> Seq<Seq<char>>;

/// The slots appended to a builder since it was made or last finished;
/// `None` is a null.
pub uninterp spec fn u64_builder_items(builder: U64Builder) -> Seq<Option<u64>>;

/// The slots of a column, row by row; `None` is a null.
pub uninterp spec fn u64_column_items(column: U64Column) -> Seq<Option<u64>>;

/// The slots appended to a builder since it was made or last finished;
/// `None` is a null.
pub uninterp spec fn seconds_builder_items(builder: SecondsBuilder) -> Seq<Option<i64>>;

/// The slots of a column, row by row; `None` is a null.
pub uninterp spec fn seconds_column_items(column: SecondsColumn) -> Seq<Option<i64>>;

/// The key of each row of a dictionary column. No key is null.
pub uninterp spec fn dictionary_column_keys(column: DictionaryColumn) -> Seq<int>;

/// The dictionary of a dictionary column: the texts that its keys point at.
pub uninterp spec fn dictionary_column_values(column: DictionaryColumn) -> Seq<Seq<char>>;

/// A finished column of one of the four kinds.
pub enum Column {
    Utf8(Utf8Column),
    Dictionary(DictionaryColumn),
    UInt64(U64Column),
    TimestampSecond(SecondsColumn),
}

impl View for Column {
    type V = ColumnData;

    open spec fn view(&self) -> ColumnData {
        match *self {
            Column::Utf8(column) => ColumnData::Utf8(utf8_column_items(column)),
            Column::Dictionary(column) => ColumnData::Dictionary {
                keys: dictionary_column_keys(column),
                values: dictionary_column_values(column),
            },
            Column::UInt64(column) => ColumnData::UInt64(u64_column_items(column)),
            Column::TimestampSecond(column) => ColumnData::TimestampSecond(
                seconds_column_items(column),
            ),
        }
    }
}

/// What each of `columns` holds.
pub open spec fn column_views(columns: Seq<Column>) -> Seq<ColumnData> {
    Seq::new(columns.len(), |at: int| columns[at]@)
}

/// The texts that `labels` stand for.
pub open spec fn label_texts(labels: Seq<&str>) -> Seq<Seq<char>> {
    Seq::new(labels.len(), |row: int| labels[row]@)
}

/// `StringBuilder::new`: a builder that holds nothing yet.
#[verifier::external_body]
pub(crate) fn utf8_builder_new() -> (builder: Utf8Builder)
    ensures
        utf8_builder_items(builder) == Seq::<Seq<char>>::empty(),
{
    Utf8Builder { inner: StringBuilder::new() }
}

/// `StringBuilder::append_value`: appends `value` as the next row. Arrow
/// panics where the bytes of all rows together pass `i32::MAX`, which the
/// precondition rules out.
#[verifier::external_body]
pub(crate) fn utf8_builder_append_value(builder: &mut Utf8Builder, value: &str)
    requires
        total_utf8_len(utf8_builder_items(*old(builder))) + utf8_len(value@) <= i32::MAX,
    ensures
        utf8_builder_items(*final(builder)) == utf8_builder_items(*old(builder)).push(value@),
{
    builder.inner.append_value(value)
}

/// `StringBuilder::finish`: hands out the rows as a column and leaves the
/// builder empty.
#[verifier::external_body]
pub(crate) fn utf8_builder_finish(builder: &mut Utf8Builder) -> (column: Utf8Column)
    ensures
        utf8_column_items(column) == utf8_builder_items(*old(builder)),
        utf8_builder_items(*final(builder)) == Seq::<Seq<char>>::empty(),
{
    Utf8Column { inner: builder.inner.finish() }
}

/// `UInt64Builder::new`: a builder that holds nothing yet.
#[verifier::external_body]
pub(crate) fn u64_builder_new() -> (builder: U64Builder)
    ensures
        u64_builder_items(builder) == Seq::<Option<u64>>::empty(),
{
    U64Builder { inner: UInt64Builder::new() }
}

/// `UInt64Builder::append_value`: appends `value` as the next row.
#[verifier::external_body]
pub(crate) fn u64_builder_append_value(builder: &mut U64Builder, value: u64)
    ensures
        u64_builder_items(*final(builder)) == u64_builder_items(*old(builder)).push(Some(value)),
{
    builder.inner.append_value(value)
}

/// `UInt64Builder::append_null`: appends a null as the next row.
#[verifier::external_body]
pub(crate) fn u64_builder_append_null(builder: &mut U64Builder)
    ensures
        u64_builder_items(*final(builder)) == u64_builder_items(*old(builder)).push(None),
{
    builder.inner.append_null()
}

/// `UInt64Builder::finish`: hands out the rows as a column and leaves the
/// builder empty.
#[verifier::external_body]
pub(crate) fn u64_builder_finish(builder: &mut U64Builder) -> (column: U64Column)
    ensures
        u64_column_items(column) == u64_builder_items(*old(builder)),
        u64_builder_items(*final(builder)) == Seq::<Option<u64>>::empty(),
{
    U64Column { inner: builder.inner.finish() }
}

/// `TimestampSecondBuilder::new`: a builder that holds nothing yet.
#[verifier::external_body]
pub(crate) fn seconds_builder_new() -> (builder: SecondsBuilder)
    ensures
        seconds_builder_items(builder) == Seq::<Option<i64>>::empty(),
{
    SecondsBuilder { inner: TimestampSecondBuilder::new() }
}

/// `TimestampSecondBuilder::append_value`: appends `value` as the next row.
#[verifier::external_body]
pub(crate) fn seconds_builder_append_value(builder: &mut SecondsBuilder, value: i64)
    ensures
        seconds_builder_items(*final(builder)) == seconds_builder_items(*old(builder)).push(
            Some(value),
        ),
{
    builder.inner.append_value(value)
}

/// `TimestampSecondBuilder::append_null`: appends a null as the next row.
#[verifier::external_body]
pub(crate) fn seconds_builder_append_null(builder: &mut SecondsBuilder)
    ensures
        seconds_builder_items(*final(builder)) == seconds_builder_items(*old(builder)).push(None),
{
    builder.inner.append_null()
}

/// `TimestampSecondBuilder::finish`: hands out the rows as a column and
/// leaves the builder empty.
#[verifier::external_body]
pub(crate) fn seconds_builder_finish(builder: &mut SecondsBuilder) -> (column: SecondsColumn)
    ensures
        seconds_column_items(column) == seconds_builder_items(*old(builder)),
        seconds_builder_items(*final(builder)) == Seq::<Option<i64>>::empty(),
{
    SecondsColumn { inner: builder.inner.finish() }
}

/// `DictionaryArray::<Int32Type>::from_iter` over texts: the dictionary holds
/// the distinct labels in the order of their first occurrence, and the key of
/// a row is the position of its label there. Arrow panics where the
/// dictionary would have more than `i32::MAX` entries or bytes, which the
/// precondition rules out.
#[verifier::external_body]
pub(crate) fn dictionary_from_iter(labels: &Vec<&str>) -> (column: DictionaryColumn)
    requires
        first_seen(label_texts(labels@)).len() <= i32::MAX,
        total_utf8_len(first_seen(label_texts(labels@))) <= i32::MAX,
    ensures
        dictionary_column_values(column) == first_seen(label_texts(labels@)),
        dictionary_column_keys(column) == dictionary_keys(label_texts(labels@)),
{
    DictionaryColumn { inner: DictionaryArray::<Int32Type>::from_iter(labels.iter().copied()) }
}

} // verus!
