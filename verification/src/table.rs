//! The table that a batch holds: six columns in a fixed order.
//!
//! The order, the names, the kinds and the nullability of the columns are
//! part of the wire format. The schema and the columns of a batch are both
//! derived from here, so that they agree.

use vstd::prelude::*;
use vstd::utf8::is_ascii_chars_encode_utf8;

use crate::dictionary::dictionary_keys;
use crate::dictionary::first_seen;
use crate::dictionary::lemma_dictionary_keys_valid;
use crate::dictionary::lemma_first_seen_compact;
use crate::dictionary::lemma_first_seen_distinct;
use crate::extension::lemma_extension_is_part;
use crate::row::rows_of;
use crate::row::RowView;
use crate::row::StatusEntry;
use crate::status::RecordFamily;
use crate::status::StatusDto;
use crate::text::lemma_total_utf8_len_bound;
use crate::text::lemma_utf8_len_part;
use crate::text::total_utf8_len;
use crate::text::utf8_len;

verus! {

/// The kind of data that a column holds.
#[derive(Debug, Clone, Copy, PartialEq, Eq)]
pub enum ColumnKind {
    /// Text.
    Utf8,
    /// Text that is dictionary-encoded, with keys of 32 bits.
    Dictionary,
    /// Unsigned integers of 64 bits.
    UInt64,
    /// Points in time, in whole seconds since the epoch, with no time zone.
    TimestampSecond,
}

/// What a schema says of one column.
pub struct ColumnSpec {
    pub name: Seq<char>,
    pub kind: ColumnKind,
    pub nullable: bool,
}

/// What one column of a batch holds, row by row.
pub enum ColumnData {
    Utf8(Seq<Seq<char>>),
    Dictionary { keys: Seq<int>, values: Seq<Seq<char>> },
    UInt64(Seq<Option<u64>>),
    TimestampSecond(Seq<Option<i64>>),
}

impl ColumnData {
    /// The kind of the column.
    pub open spec fn kind(self) -> ColumnKind {
        match self {
            ColumnData::Utf8(_) => ColumnKind::Utf8,
            ColumnData::Dictionary { .. } => ColumnKind::Dictionary,
            ColumnData::UInt64(_) => ColumnKind::UInt64,
            ColumnData::TimestampSecond(_) => ColumnKind::TimestampSecond,
        }
    }

    /// The number of rows of the column.
    pub open spec fn rows(self) -> nat {
        match self {
            ColumnData::Utf8(items) => items.len(),
            ColumnData::Dictionary { keys, .. } => keys.len(),
            ColumnData::UInt64(items) => items.len(),
            ColumnData::TimestampSecond(items) => items.len(),
        }
    }

    /// Whether some row of the column is null.
    pub open spec fn has_null(self) -> bool {
        match self {
            ColumnData::Utf8(_) => false,
            ColumnData::Dictionary { .. } => false,
            ColumnData::UInt64(items) => exists|row: int|
                0 <= row < items.len() && #[trigger] items[row] is None,
            ColumnData::TimestampSecond(items) => exists|row: int|
                0 <= row < items.len() && #[trigger] items[row] is None,
        }
    }
}

/// Whether columns can form a batch under a schema: there is a column for
/// each field and at least one, all columns have as many rows, each is of its
/// field's kind, and only a nullable field has a column with a null.
pub open spec fn batch_accepts(fields: Seq<ColumnSpec>, columns: Seq<ColumnData>) -> bool {
    &&& fields.len() == columns.len()
    &&& columns.len() > 0
    &&& forall|at: int|
        0 <= at < columns.len() ==> (#[trigger] columns[at]).rows() == columns[0].rows()
    &&& forall|at: int|
        0 <= at < columns.len() ==> (#[trigger] columns[at]).kind() == fields[at].kind
    &&& forall|at: int|
        0 <= at < columns.len() ==> fields[at].nullable || !(#[trigger] columns[at]).has_null()
}

/// The six columns of the output, in their order on the wire.
pub open spec fn output_columns() -> Seq<ColumnSpec> {
    seq![
        ColumnSpec { name: "path"@, kind: ColumnKind::Utf8, nullable: false },
        ColumnSpec { name: "status"@, kind: ColumnKind::Dictionary, nullable: false },
        ColumnSpec { name: "item_type"@, kind: ColumnKind::Dictionary, nullable: false },
        ColumnSpec { name: "extension"@, kind: ColumnKind::Utf8, nullable: true },
        ColumnSpec { name: "size"@, kind: ColumnKind::UInt64, nullable: true },
        ColumnSpec {
            name: "last_modification_time"@,
            kind: ColumnKind::TimestampSecond,
            nullable: true,
        },
    ]
}

/// No column of the output has a name of more than twenty-two bytes.
pub proof fn lemma_output_names_short()
    ensures
        output_columns().len() == 6,
        forall|at: int| 0 <= at < 6 ==> utf8_len((#[trigger] output_columns()[at]).name) <= 22,
{
    reveal_strlit("path");
    reveal_strlit("status");
    reveal_strlit("item_type");
    reveal_strlit("extension");
    reveal_strlit("size");
    reveal_strlit("last_modification_time");
    assert forall|at: int| 0 <= at < 6 implies utf8_len((#[trigger] output_columns()[at]).name)
        <= 22 by {
        is_ascii_chars_encode_utf8(output_columns()[at].name);
    }
}

/// The paths of `rows`.
pub open spec fn path_column(rows: Seq<RowView>) -> Seq<Seq<char>> {
    Seq::new(rows.len(), |row: int| rows[row].path)
}

/// The status labels of `rows`.
pub open spec fn status_column(rows: Seq<RowView>) -> Seq<Seq<char>> {
    Seq::new(rows.len(), |row: int| rows[row].status.label_text())
}

/// The family labels of `rows`.
pub open spec fn family_column(rows: Seq<RowView>) -> Seq<Seq<char>> {
    Seq::new(rows.len(), |row: int| rows[row].family.label_text())
}

/// The extensions of `rows`.
pub open spec fn extension_column(rows: Seq<RowView>) -> Seq<Seq<char>> {
    Seq::new(rows.len(), |row: int| rows[row].extension)
}

/// The sizes of `rows`.
pub open spec fn size_column(rows: Seq<RowView>) -> Seq<Option<u64>> {
    Seq::new(rows.len(), |row: int| rows[row].size)
}

/// The modification times of `rows`.
pub open spec fn modified_column(rows: Seq<RowView>) -> Seq<Option<i64>> {
    Seq::new(rows.len(), |row: int| rows[row].modified_at)
}

/// A column of labels in dictionary encoding.
pub open spec fn dictionary_column(labels: Seq<Seq<char>>) -> ColumnData {
    ColumnData::Dictionary { keys: dictionary_keys(labels), values: first_seen(labels) }
}

/// The columns that hold `rows`, in the order of `output_columns`. The two
/// dictionaries are built apart and share nothing.
pub open spec fn table_columns(rows: Seq<RowView>) -> Seq<ColumnData> {
    seq![
        ColumnData::Utf8(path_column(rows)),
        dictionary_column(status_column(rows)),
        dictionary_column(family_column(rows)),
        ColumnData::Utf8(extension_column(rows)),
        ColumnData::UInt64(size_column(rows)),
        ColumnData::TimestampSecond(modified_column(rows)),
    ]
}

/// Whether the paths of `rows` fit a column of text, which addresses its
/// bytes with offsets of 32 bits. The extensions, being parts of the paths,
/// then fit theirs.
pub open spec fn table_fits(rows: Seq<RowView>) -> bool {
    total_utf8_len(path_column(rows)) <= i32::MAX
}

/// The extensions of the first rows take no more bytes than their paths.
pub proof fn lemma_extensions_fit(entries: Seq<StatusEntry>, upto: int)
    requires
        0 <= upto <= entries.len(),
    ensures
        total_utf8_len(extension_column(rows_of(entries)).take(upto)) <= total_utf8_len(
            path_column(rows_of(entries)).take(upto),
        ),
    decreases upto,
{
    if upto > 0 {
        let rows = rows_of(entries);
        let path = rows[upto - 1].path;
        lemma_extensions_fit(entries, upto - 1);
        assert(extension_column(rows).take(upto).drop_last() == extension_column(rows).take(
            upto - 1,
        ));
        assert(path_column(rows).take(upto).drop_last() == path_column(rows).take(upto - 1));
        let range = lemma_extension_is_part(path);
        lemma_utf8_len_part(path, range.0, range.1);
    }
}

/// Every label that the `status` column can hold.
pub open spec fn status_labels() -> Seq<Seq<char>> {
    seq![
        StatusDto::Removed.label_text(),
        StatusDto::Added.label_text(),
        StatusDto::Modified.label_text(),
        StatusDto::TypeChange.label_text(),
        StatusDto::Renamed.label_text(),
        StatusDto::Copied.label_text(),
        StatusDto::IntentToAdd.label_text(),
        StatusDto::Conflict.label_text(),
        StatusDto::Untracked.label_text(),
    ]
}

/// Every label that the `item_type` column can hold.
pub open spec fn family_labels() -> Seq<Seq<char>> {
    seq![RecordFamily::IndexWorktree.label_text(), RecordFamily::TreeIndex.label_text()]
}

/// The label of a status is one of the nine status labels.
pub proof fn lemma_status_label_known(status: StatusDto)
    ensures
        status_labels().contains(status.label_text()),
{
    let labels = status_labels();
    match status {
        StatusDto::Removed => assert(labels[0] == status.label_text()),
        StatusDto::Added => assert(labels[1] == status.label_text()),
        StatusDto::Modified => assert(labels[2] == status.label_text()),
        StatusDto::TypeChange => assert(labels[3] == status.label_text()),
        StatusDto::Renamed => assert(labels[4] == status.label_text()),
        StatusDto::Copied => assert(labels[5] == status.label_text()),
        StatusDto::IntentToAdd => assert(labels[6] == status.label_text()),
        StatusDto::Conflict => assert(labels[7] == status.label_text()),
        StatusDto::Untracked => assert(labels[8] == status.label_text()),
    }
}

/// The label of a family is one of the two family labels.
pub proof fn lemma_family_label_known(family: RecordFamily)
    ensures
        family_labels().contains(family.label_text()),
{
    let labels = family_labels();
    match family {
        RecordFamily::IndexWorktree => assert(labels[0] == family.label_text()),
        RecordFamily::TreeIndex => assert(labels[1] == family.label_text()),
    }
}

/// No label takes more than thirteen bytes.
pub proof fn lemma_label_sizes()
    ensures
        forall|at: int| 0 <= at < 9 ==> utf8_len(#[trigger] status_labels()[at]) <= 13,
        forall|at: int| 0 <= at < 2 ==> utf8_len(#[trigger] family_labels()[at]) <= 13,
{
    reveal_strlit("Removed");
    reveal_strlit("Added");
    reveal_strlit("Modified");
    reveal_strlit("TypeChange");
    reveal_strlit("Renamed");
    reveal_strlit("Copied");
    reveal_strlit("IntentToAdd");
    reveal_strlit("Conflict");
    reveal_strlit("Untracked");
    reveal_strlit("IndexWorktree");
    reveal_strlit("TreeIndex");
    assert forall|at: int| 0 <= at < 9 implies utf8_len(#[trigger] status_labels()[at])
        <= 13 by {
        is_ascii_chars_encode_utf8(status_labels()[at]);
    }
    assert forall|at: int| 0 <= at < 2 implies utf8_len(#[trigger] family_labels()[at])
        <= 13 by {
        is_ascii_chars_encode_utf8(family_labels()[at]);
    }
}

/// The dictionary of labels that all come from `alphabet`, each of at most
/// thirteen bytes, takes at most thirteen bytes for each member of
/// `alphabet`.
proof fn lemma_dictionary_bytes(labels: Seq<Seq<char>>, alphabet: Seq<Seq<char>>)
    requires
        forall|row: int| 0 <= row < labels.len() ==> alphabet.contains(#[trigger] labels[row]),
        forall|at: int| 0 <= at < alphabet.len() ==> utf8_len(#[trigger] alphabet[at]) <= 13,
    ensures
        first_seen(labels).len() <= alphabet.len(),
        total_utf8_len(first_seen(labels)) <= alphabet.len() * 13,
{
    let held = first_seen(labels);
    lemma_first_seen_compact(labels, alphabet);
    lemma_first_seen_distinct(labels);
    assert forall|at: int| 0 <= at < held.len() implies utf8_len(#[trigger] held[at]) <= 13 by {
        assert(held.contains(held[at]));
        assert(labels.contains(held[at]));
        let row = choose|row: int| 0 <= row < labels.len() && labels[row] == held[at];
        assert(alphabet.contains(labels[row]));
    }
    lemma_total_utf8_len_bound(held, 13);
    assert(held.len() * 13 <= alphabet.len() * 13) by (nonlinear_arith)
        requires
            held.len() <= alphabet.len(),
    ;
}

/// The dictionaries stay small whatever the number of rows: that of `status`
/// has at most nine entries, that of `item_type` at most two, and neither
/// takes more than thirteen bytes an entry.
pub proof fn lemma_dictionaries_compact(rows: Seq<RowView>)
    ensures
        table_columns(rows)[1] == dictionary_column(status_column(rows)),
        table_columns(rows)[2] == dictionary_column(family_column(rows)),
        first_seen(status_column(rows)).len() <= 9,
        first_seen(family_column(rows)).len() <= 2,
        total_utf8_len(first_seen(status_column(rows))) <= 117,
        total_utf8_len(first_seen(family_column(rows))) <= 26,
{
    lemma_label_sizes();
    assert forall|row: int| 0 <= row < rows.len() implies status_labels().contains(
        #[trigger] status_column(rows)[row],
    ) by {
        lemma_status_label_known(rows[row].status);
    }
    lemma_dictionary_bytes(status_column(rows), status_labels());
    assert forall|row: int| 0 <= row < rows.len() implies family_labels().contains(
        #[trigger] family_column(rows)[row],
    ) by {
        lemma_family_label_known(rows[row].family);
    }
    lemma_dictionary_bytes(family_column(rows), family_labels());
}

/// No two statuses share a label, and no two families.
pub proof fn lemma_labels_distinct(first: StatusDto, second: StatusDto)
    ensures
        first.label_text() == second.label_text() ==> first == second,
        RecordFamily::IndexWorktree.label_text() != RecordFamily::TreeIndex.label_text(),
{
    reveal_strlit("Removed");
    reveal_strlit("Added");
    reveal_strlit("Modified");
    reveal_strlit("TypeChange");
    reveal_strlit("Renamed");
    reveal_strlit("Copied");
    reveal_strlit("IntentToAdd");
    reveal_strlit("Conflict");
    reveal_strlit("Untracked");
    reveal_strlit("IndexWorktree");
    reveal_strlit("TreeIndex");
    if first != second && first.label_text() == second.label_text() {
        assert(first.label_text().len() == second.label_text().len());
        assert(first.label_text()[0] == second.label_text()[0]);
        assert(first.label_text()[2] == second.label_text()[2]);
    }
    assert(RecordFamily::IndexWorktree.label_text().len()
        != RecordFamily::TreeIndex.label_text().len());
}

/// The text that a column of text holds at a row, be it plain or
/// dictionary-encoded.
pub open spec fn text_at(column: ColumnData, row: int) -> Seq<char> {
    match column {
        ColumnData::Utf8(items) => items[row],
        ColumnData::Dictionary { keys, values } => values[keys[row]],
        _ => Seq::empty(),
    }
}

/// The integer that a column of integers holds at a row.
pub open spec fn u64_at(column: ColumnData, row: int) -> Option<u64> {
    match column {
        ColumnData::UInt64(items) => items[row],
        _ => None,
    }
}

/// The time that a column of timestamps holds at a row.
pub open spec fn seconds_at(column: ColumnData, row: int) -> Option<i64> {
    match column {
        ColumnData::TimestampSecond(items) => items[row],
        _ => None,
    }
}

/// The status that `label` stands for.
pub open spec fn status_of_label(label: Seq<char>) -> StatusDto {
    if label == StatusDto::Removed.label_text() {
        StatusDto::Removed
    } else if label == StatusDto::Added.label_text() {
        StatusDto::Added
    } else if label == StatusDto::Modified.label_text() {
        StatusDto::Modified
    } else if label == StatusDto::TypeChange.label_text() {
        StatusDto::TypeChange
    } else if label == StatusDto::Renamed.label_text() {
        StatusDto::Renamed
    } else if label == StatusDto::Copied.label_text() {
        StatusDto::Copied
    } else if label == StatusDto::IntentToAdd.label_text() {
        StatusDto::IntentToAdd
    } else if label == StatusDto::Conflict.label_text() {
        StatusDto::Conflict
    } else {
        StatusDto::Untracked
    }
}

/// The family that `label` stands for.
pub open spec fn family_of_label(label: Seq<char>) -> RecordFamily {
    if label == RecordFamily::IndexWorktree.label_text() {
        RecordFamily::IndexWorktree
    } else {
        RecordFamily::TreeIndex
    }
}

/// The row that six columns in the order of `output_columns` hold at a
/// position: what a reader of the columns finds there.
pub open spec fn row_at(columns: Seq<ColumnData>, row: int) -> RowView {
    RowView {
        path: text_at(columns[0], row),
        status: status_of_label(text_at(columns[1], row)),
        family: family_of_label(text_at(columns[2], row)),
        extension: text_at(columns[3], row),
        size: u64_at(columns[4], row),
        modified_at: seconds_at(columns[5], row),
    }
}

/// Reading the columns gives back the rows: at each position the columns hold
/// the row that was put there, field by field, and each key points into its
/// dictionary.
pub proof fn lemma_table_round_trip(rows: Seq<RowView>, row: int)
    requires
        0 <= row < rows.len(),
    ensures
        row_at(table_columns(rows), row) == rows[row],
        table_columns(rows)[1] matches ColumnData::Dictionary { keys, values } && 0 <= keys[row]
            < values.len(),
        table_columns(rows)[2] matches ColumnData::Dictionary { keys, values } && 0 <= keys[row]
            < values.len(),
{
    lemma_dictionary_keys_valid(status_column(rows), row);
    lemma_dictionary_keys_valid(family_column(rows), row);
    lemma_labels_distinct(rows[row].status, StatusDto::Removed);
    lemma_labels_distinct(rows[row].status, StatusDto::Added);
    lemma_labels_distinct(rows[row].status, StatusDto::Modified);
    lemma_labels_distinct(rows[row].status, StatusDto::TypeChange);
    lemma_labels_distinct(rows[row].status, StatusDto::Renamed);
    lemma_labels_distinct(rows[row].status, StatusDto::Copied);
    lemma_labels_distinct(rows[row].status, StatusDto::IntentToAdd);
    lemma_labels_distinct(rows[row].status, StatusDto::Conflict);
}

/// The columns of any rows form a batch under the output schema: six columns
/// of one length, each of the kind that the schema names, and no null in the
/// three columns that the schema requires.
pub proof fn lemma_table_accepted(rows: Seq<RowView>)
    ensures
        table_columns(rows).len() == 6,
        output_columns().len() == 6,
        forall|at: int| 0 <= at < 6 ==> (#[trigger] table_columns(rows)[at]).rows() == rows.len(),
        batch_accepts(output_columns(), table_columns(rows)),
{
}

} // verus!
