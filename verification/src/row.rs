//! Rows of the output batch: one per change record, in the order of the
//! records.
//!
//! Size and modification time come from the filesystem entry at the record's
//! path, and only working-copy records have one read for them. The caller
//! reads the entry and hands in what it found; a record whose entry could not
//! be read keeps its row, with both columns null.

use vstd::prelude::*;

use crate::extension::extension_of;
use crate::extension::extension_text;
use crate::status::RecordFamily;
use crate::status::StatusDto;
use crate::status::StatusItem;

verus! {

/// What reading the filesystem entry at a path gave.
#[derive(Debug, Clone, Copy, PartialEq, Eq)]
pub struct FileMetadata {
    /// The length of the entry in bytes.
    pub len: u64,
    /// Whole seconds from the epoch to the entry's modification time; `None`
    /// where that time cannot be read or lies before the epoch.
    pub modified: Option<u64>,
}

/// A change record with what the filesystem holds at its path.
#[derive(Debug, PartialEq, Eq)]
pub struct StatusEntry {
    pub item: StatusItem,
    /// The entry at the record's path; `None` where it is absent or cannot be
    /// read, and for a record that needs none.
    pub metadata: Option<FileMetadata>,
}

/// One row of the output batch.
#[derive(Debug, PartialEq, Eq)]
pub struct Row {
    pub path: String,
    pub status: StatusDto,
    pub family: RecordFamily,
    pub extension: String,
    pub size: Option<u64>,
    pub modified_at: Option<i64>,
}

/// A row over mathematical text.
pub struct RowView {
    pub path: Seq<char>,
    pub status: StatusDto,
    pub family: RecordFamily,
    pub extension: Seq<char>,
    pub size: Option<u64>,
    pub modified_at: Option<i64>,
}

impl View for Row {
    type V = RowView;

    open spec fn view(&self) -> RowView {
        RowView {
            path: self.path@,
            status: self.status,
            family: self.family,
            extension: self.extension@,
            size: self.size,
            modified_at: self.modified_at,
        }
    }
}

/// A count of seconds as the timestamp column holds it: a count beyond the
/// column's range wraps round, as a two's complement cast does.
pub open spec fn timestamp_of(seconds: u64) -> i64 {
    if seconds <= i64::MAX {
        seconds as i64
    } else {
        (seconds - 0x1_0000_0000_0000_0000) as i64
    }
}

/// The timestamp that stands for `seconds` since the epoch.
pub fn epoch_seconds(seconds: u64) -> (timestamp: i64)
    ensures
        timestamp == timestamp_of(seconds),
{
    if seconds <= 0x7fff_ffff_ffff_ffff {
        seconds as i64
    } else {
        let above: u64 = seconds - 0x8000_0000_0000_0000;
        let above: i64 = above as i64;
        above + i64::MIN
    }
}

impl StatusItem {
    /// The path whose filesystem entry the row of this record reads: that of
    /// a working-copy record. A committed-tree record reads none.
    pub fn probe_path(&self) -> (path: Option<&str>)
        ensures
            self.family_code() == RecordFamily::IndexWorktree ==> path is Some && path->0@
                == self.path_text(),
            self.family_code() == RecordFamily::TreeIndex ==> path is None,
    {
        match self {
            StatusItem::IndexWorktree { rela_path, .. } => Some(rela_path.as_str()),
            StatusItem::TreeIndex { .. } => None,
        }
    }
}

impl StatusEntry {
    /// The entry that the row reads: the one handed in, for a working-copy
    /// record only.
    pub open spec fn probed(self) -> Option<FileMetadata> {
        match self.item.family_code() {
            RecordFamily::IndexWorktree => self.metadata,
            RecordFamily::TreeIndex => None,
        }
    }

    /// The row of this record.
    pub open spec fn row(self) -> RowView {
        RowView {
            path: self.item.path_text(),
            status: self.item.status_code(),
            family: self.item.family_code(),
            extension: extension_text(self.item.path_text()),
            size: match self.probed() {
                Some(metadata) => Some(metadata.len),
                None => None,
            },
            modified_at: match self.probed() {
                Some(FileMetadata { modified: Some(seconds), .. }) => Some(
                    timestamp_of(seconds),
                ),
                _ => None,
            },
        }
    }

    /// Assembles the row of this record.
    pub fn assemble(&self) -> (row: Row)
        ensures
            row@ == self.row(),
    {
        let family = self.item.family();
        let probed: Option<FileMetadata> = match family {
            RecordFamily::IndexWorktree => self.metadata,
            RecordFamily::TreeIndex => None,
        };
        let size: Option<u64> = match probed {
            Some(metadata) => Some(metadata.len),
            None => None,
        };
        let modified_at: Option<i64> = match probed {
            Some(FileMetadata { modified: Some(seconds), .. }) => Some(epoch_seconds(seconds)),
            _ => None,
        };
        let path = self.item.path();
        Row {
            path: path.to_owned(),
            status: self.item.status(),
            family,
            extension: extension_of(path),
            size,
            modified_at,
        }
    }
}

/// The rows of `entries`: one per record, in the order of the records.
pub open spec fn rows_of(entries: Seq<StatusEntry>) -> Seq<RowView> {
    Seq::new(entries.len(), |i: int| entries[i].row())
}

/// No record is dropped, merged or duplicated: there are as many rows as
/// records.
pub proof fn lemma_row_count(entries: Seq<StatusEntry>)
    ensures
        rows_of(entries).len() == entries.len(),
{
}

/// Rows stand in the order of their records: the row at a position is the
/// row of the record at that position.
pub proof fn lemma_row_order(entries: Seq<StatusEntry>, at: int)
    requires
        0 <= at < entries.len(),
    ensures
        rows_of(entries)[at] == entries[at].row(),
{
}

/// Nothing is sorted and nothing moves: the rows of records that follow one
/// another are the rows of the first records, followed by the rows of the
/// rest.
pub proof fn lemma_rows_concat(first: Seq<StatusEntry>, rest: Seq<StatusEntry>)
    ensures
        rows_of(first + rest) == rows_of(first) + rows_of(rest),
{
    assert(rows_of(first + rest) =~= rows_of(first) + rows_of(rest));
}

/// A row has a size exactly where its record is a working-copy record whose
/// filesystem entry was read. It has a modification time exactly where, in
/// addition, that entry's modification time was readable and not before the
/// epoch; so a row with a modification time has a size.
pub proof fn lemma_null_invariant(entry: StatusEntry)
    ensures
        entry.row().size is Some <==> (entry.item.family_code() == RecordFamily::IndexWorktree
            && entry.metadata is Some),
        entry.row().size is Some ==> entry.row().size->0 == entry.metadata->0.len,
        entry.row().modified_at is Some <==> (entry.item.family_code()
            == RecordFamily::IndexWorktree && entry.metadata is Some
            && entry.metadata->0.modified is Some),
        entry.row().modified_at is Some ==> entry.row().modified_at->0 == timestamp_of(
            entry.metadata->0.modified->0,
        ),
        entry.row().modified_at is Some ==> entry.row().size is Some,
{
}

/// The extension of a row depends on its path alone, whatever its family.
pub proof fn lemma_row_extension(entry: StatusEntry)
    ensures
        entry.row().extension == extension_text(entry.row().path),
{
}

} // verus!
