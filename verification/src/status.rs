//! Change records as a status provider reports them, and their normalized form.
//!
//! A provider reports two families of records: comparisons of the index with
//! the working copy, and comparisons of a committed tree with the index. The
//! classifier maps either to one status code and one relative path.

use vstd::prelude::*;
use vstd::std_specs::convert::FromSpecImpl;

verus! {

/// The normalized status of one changed path.
#[derive(Debug, Clone, Copy, PartialEq, Eq, Hash)]
pub enum StatusDto {
    Removed,
    Added,
    Modified,
    TypeChange,
    Renamed,
    Copied,
    IntentToAdd,
    Conflict,
    Untracked,
}

/// Which comparison a record stems from.
#[derive(Debug, Clone, Copy, PartialEq, Eq, Hash)]
pub enum RecordFamily {
    /// The index compared with the working copy.
    IndexWorktree,
    /// A committed tree compared with the index.
    TreeIndex,
}

/// A classified record: the variant is the record's family.
#[derive(Debug, PartialEq, Eq)]
pub enum StatusItemDto {
    IndexWorktree { path: String, status: StatusDto },
    TreeIndex { path: String, status: StatusDto },
}

/// What a comparison of the index with the working copy found for a tracked
/// path.
#[derive(Debug, Clone, Copy, PartialEq, Eq, Hash)]
pub enum WorktreeSummary {
    Removed,
    Added,
    Modified,
    TypeChange,
    Renamed,
    Copied,
    IntentToAdd,
    Conflict,
}

/// What a comparison of a committed tree with the index found for a path.
#[derive(Debug, Clone, Copy, PartialEq, Eq, Hash)]
pub enum TreeChange {
    Addition,
    Deletion,
    Modification,
    Rewrite,
}

/// One change record as the status provider reports it.
#[derive(Debug, PartialEq, Eq)]
pub enum StatusItem {
    /// A working-copy record. No summary means that the path is untracked.
    IndexWorktree { rela_path: String, summary: Option<WorktreeSummary> },
    /// A committed-tree record.
    TreeIndex { location: String, change: TreeChange },
}

impl StatusDto {
    /// The text that stands for this status in the `status` column.
    pub open spec fn label_text(self) -> Seq<char> {
        match self {
            StatusDto::Removed => "Removed"@,
            StatusDto::Added => "Added"@,
            StatusDto::Modified => "Modified"@,
            StatusDto::TypeChange => "TypeChange"@,
            StatusDto::Renamed => "Renamed"@,
            StatusDto::Copied => "Copied"@,
            StatusDto::IntentToAdd => "IntentToAdd"@,
            StatusDto::Conflict => "Conflict"@,
            StatusDto::Untracked => "Untracked"@,
        }
    }

    /// The label of this status: the name of the variant.
    pub fn label(&self) -> (text: &'static str)
        ensures
            text@ == self.label_text(),
    {
        match self {
            StatusDto::Removed => "Removed",
            StatusDto::Added => "Added",
            StatusDto::Modified => "Modified",
            StatusDto::TypeChange => "TypeChange",
            StatusDto::Renamed => "Renamed",
            StatusDto::Copied => "Copied",
            StatusDto::IntentToAdd => "IntentToAdd",
            StatusDto::Conflict => "Conflict",
            StatusDto::Untracked => "Untracked",
        }
    }
}

impl RecordFamily {
    /// The text that stands for this family in the `item_type` column.
    pub open spec fn label_text(self) -> Seq<char> {
        match self {
            RecordFamily::IndexWorktree => "IndexWorktree"@,
            RecordFamily::TreeIndex => "TreeIndex"@,
        }
    }

    /// The label of this family: the name of the variant.
    pub fn label(&self) -> (text: &'static str)
        ensures
            text@ == self.label_text(),
    {
        match self {
            RecordFamily::IndexWorktree => "IndexWorktree",
            RecordFamily::TreeIndex => "TreeIndex",
        }
    }
}

impl WorktreeSummary {
    /// The status that a working-copy summary maps to, one to one.
    pub open spec fn status_code(self) -> StatusDto {
        match self {
            WorktreeSummary::Removed => StatusDto::Removed,
            WorktreeSummary::Added => StatusDto::Added,
            WorktreeSummary::Modified => StatusDto::Modified,
            WorktreeSummary::TypeChange => StatusDto::TypeChange,
            WorktreeSummary::Renamed => StatusDto::Renamed,
            WorktreeSummary::Copied => StatusDto::Copied,
            WorktreeSummary::IntentToAdd => StatusDto::IntentToAdd,
            WorktreeSummary::Conflict => StatusDto::Conflict,
        }
    }

    /// The status of a tracked path in the working copy.
    pub fn status(&self) -> (status: StatusDto)
        ensures
            status == self.status_code(),
    {
        match self {
            WorktreeSummary::Removed => StatusDto::Removed,
            WorktreeSummary::Added => StatusDto::Added,
            WorktreeSummary::Modified => StatusDto::Modified,
            WorktreeSummary::TypeChange => StatusDto::TypeChange,
            WorktreeSummary::Renamed => StatusDto::Renamed,
            WorktreeSummary::Copied => StatusDto::Copied,
            WorktreeSummary::IntentToAdd => StatusDto::IntentToAdd,
            WorktreeSummary::Conflict => StatusDto::Conflict,
        }
    }
}

impl TreeChange {
    /// The status that a committed-tree change maps to.
    pub open spec fn status_code(self) -> StatusDto {
        match self {
            TreeChange::Addition => StatusDto::Added,
            TreeChange::Deletion => StatusDto::Removed,
            TreeChange::Modification => StatusDto::Modified,
            TreeChange::Rewrite => StatusDto::Renamed,
        }
    }

    /// The status of a path that differs between a committed tree and the
    /// index.
    pub fn status(&self) -> (status: StatusDto)
        ensures
            status == self.status_code(),
    {
        match self {
            TreeChange::Addition => StatusDto::Added,
            TreeChange::Deletion => StatusDto::Removed,
            TreeChange::Modification => StatusDto::Modified,
            TreeChange::Rewrite => StatusDto::Renamed,
        }
    }
}

impl StatusItem {
    /// The relative path that the record carries.
    pub open spec fn path_text(self) -> Seq<char> {
        match self {
            StatusItem::IndexWorktree { rela_path, .. } => rela_path@,
            StatusItem::TreeIndex { location, .. } => location@,
        }
    }

    /// The status that the record maps to. A working-copy record without a
    /// summary is untracked; there is no other fallback.
    pub open spec fn status_code(self) -> StatusDto {
        match self {
            StatusItem::IndexWorktree { summary: Some(summary), .. } => summary.status_code(),
            StatusItem::IndexWorktree { summary: None, .. } => StatusDto::Untracked,
            StatusItem::TreeIndex { change, .. } => change.status_code(),
        }
    }

    /// The family of the record.
    pub open spec fn family_code(self) -> RecordFamily {
        match self {
            StatusItem::IndexWorktree { .. } => RecordFamily::IndexWorktree,
            StatusItem::TreeIndex { .. } => RecordFamily::TreeIndex,
        }
    }

    /// The classified form of the record.
    pub open spec fn classified(self) -> StatusItemDto {
        match self {
            StatusItem::IndexWorktree { rela_path, .. } => StatusItemDto::IndexWorktree {
                path: rela_path,
                status: self.status_code(),
            },
            StatusItem::TreeIndex { location, .. } => StatusItemDto::TreeIndex {
                path: location,
                status: self.status_code(),
            },
        }
    }

    /// The relative path of the record.
    pub fn path(&self) -> (path: &str)
        ensures
            path@ == self.path_text(),
    {
        match self {
            StatusItem::IndexWorktree { rela_path, .. } => rela_path.as_str(),
            StatusItem::TreeIndex { location, .. } => location.as_str(),
        }
    }

    /// The status of the record.
    pub fn status(&self) -> (status: StatusDto)
        ensures
            status == self.status_code(),
    {
        match self {
            StatusItem::IndexWorktree { summary, .. } => match summary {
                Some(summary) => summary.status(),
                None => StatusDto::Untracked,
            },
            StatusItem::TreeIndex { change, .. } => change.status(),
        }
    }

    /// The family of the record.
    pub fn family(&self) -> (family: RecordFamily)
        ensures
            family == self.family_code(),
    {
        match self {
            StatusItem::IndexWorktree { .. } => RecordFamily::IndexWorktree,
            StatusItem::TreeIndex { .. } => RecordFamily::TreeIndex,
        }
    }
}

impl StatusItemDto {
    /// The path of the classified record.
    pub open spec fn path_text(self) -> Seq<char> {
        match self {
            StatusItemDto::IndexWorktree { path, .. } => path@,
            StatusItemDto::TreeIndex { path, .. } => path@,
        }
    }

    /// The status of the classified record.
    pub open spec fn status_code(self) -> StatusDto {
        match self {
            StatusItemDto::IndexWorktree { status, .. } => status,
            StatusItemDto::TreeIndex { status, .. } => status,
        }
    }

    /// The family of the classified record.
    pub open spec fn family_code(self) -> RecordFamily {
        match self {
            StatusItemDto::IndexWorktree { .. } => RecordFamily::IndexWorktree,
            StatusItemDto::TreeIndex { .. } => RecordFamily::TreeIndex,
        }
    }
}

impl<'a> From<&'a StatusItem> for StatusItemDto {
    /// Classifies one record: its path unchanged, its status by the mapping
    /// of its family, its family as the variant.
    fn from(item: &'a StatusItem) -> (dto: StatusItemDto) {
        match item {
            StatusItem::IndexWorktree { rela_path, .. } => StatusItemDto::IndexWorktree {
                path: rela_path.clone(),
                status: item.status(),
            },
            StatusItem::TreeIndex { location, .. } => StatusItemDto::TreeIndex {
                path: location.clone(),
                status: item.status(),
            },
        }
    }
}

impl<'a> FromSpecImpl<&'a StatusItem> for StatusItemDto {
    open spec fn obeys_from_spec() -> bool {
        true
    }

    open spec fn from_spec(item: &'a StatusItem) -> StatusItemDto {
        item.classified()
    }
}

/// Classification is total and keeps path and family: whatever the record,
/// its classified form carries the record's own path, the family of the
/// record, and the status that the mapping of that family gives. Only a
/// working-copy record without a summary is untracked.
pub proof fn lemma_classification_total(item: StatusItem)
    ensures
        item.classified().path_text() == item.path_text(),
        item.classified().family_code() == item.family_code(),
        item.classified().status_code() == item.status_code(),
        (item matches StatusItem::IndexWorktree { summary, .. } && summary is None)
            <==> item.status_code() == StatusDto::Untracked,
{
}

/// The working-copy record with this path and summary.
pub open spec fn worktree_record(path: String, summary: Option<WorktreeSummary>) -> StatusItem {
    StatusItem::IndexWorktree { rela_path: path, summary }
}

/// The committed-tree record with this path and change.
pub open spec fn tree_record(path: String, change: TreeChange) -> StatusItem {
    StatusItem::TreeIndex { location: path, change }
}

/// The mapping, shape by shape: the eight summaries of a working-copy record
/// map to the status of the same name, a working-copy record without a
/// summary is untracked, and the four changes of a committed-tree record map
/// to added, removed, modified and renamed. The family is that of the record.
pub proof fn lemma_classification_table(
    path: String,
    summary: Option<WorktreeSummary>,
    change: TreeChange,
)
    ensures
        worktree_record(path, summary).family_code() == RecordFamily::IndexWorktree,
        tree_record(path, change).family_code() == RecordFamily::TreeIndex,
        worktree_record(path, Some(WorktreeSummary::Removed)).status_code() == StatusDto::Removed,
        worktree_record(path, Some(WorktreeSummary::Added)).status_code() == StatusDto::Added,
        worktree_record(path, Some(WorktreeSummary::Modified)).status_code()
            == StatusDto::Modified,
        worktree_record(path, Some(WorktreeSummary::TypeChange)).status_code()
            == StatusDto::TypeChange,
        worktree_record(path, Some(WorktreeSummary::Renamed)).status_code() == StatusDto::Renamed,
        worktree_record(path, Some(WorktreeSummary::Copied)).status_code() == StatusDto::Copied,
        worktree_record(path, Some(WorktreeSummary::IntentToAdd)).status_code()
            == StatusDto::IntentToAdd,
        worktree_record(path, Some(WorktreeSummary::Conflict)).status_code()
            == StatusDto::Conflict,
        worktree_record(path, None).status_code() == StatusDto::Untracked,
        tree_record(path, TreeChange::Addition).status_code() == StatusDto::Added,
        tree_record(path, TreeChange::Deletion).status_code() == StatusDto::Removed,
        tree_record(path, TreeChange::Modification).status_code() == StatusDto::Modified,
        tree_record(path, TreeChange::Rewrite).status_code() == StatusDto::Renamed,
{
}

} // verus!
