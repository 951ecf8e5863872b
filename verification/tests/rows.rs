use rs_git_status2arrow_ipc_stream::row::epoch_seconds;
use rs_git_status2arrow_ipc_stream::FileMetadata;
use rs_git_status2arrow_ipc_stream::RecordFamily;
use rs_git_status2arrow_ipc_stream::Row;
use rs_git_status2arrow_ipc_stream::StatusDto;
use rs_git_status2arrow_ipc_stream::StatusEntry;
use rs_git_status2arrow_ipc_stream::StatusItem;
use rs_git_status2arrow_ipc_stream::TreeChange;
use rs_git_status2arrow_ipc_stream::WorktreeSummary;

fn worktree(path: &str, summary: Option<WorktreeSummary>) -> StatusItem {
    StatusItem::IndexWorktree { rela_path: path.to_string(), summary }
}

fn tree(path: &str, change: TreeChange) -> StatusItem {
    StatusItem::TreeIndex { location: path.to_string(), change }
}

#[test]
fn untracked_file_with_an_entry_has_size_and_time() {
    let time: u64 = 1_700_000_000;
    let entry = StatusEntry {
        item: worktree("a/b.txt", None),
        metadata: Some(FileMetadata { len: 42, modified: Some(time) }),
    };
    assert_eq!(
        entry.assemble(),
        Row {
            path: "a/b.txt".to_string(),
            status: StatusDto::Untracked,
            family: RecordFamily::IndexWorktree,
            extension: "txt".to_string(),
            size: Some(42),
            modified_at: Some(1_700_000_000),
        }
    );
}

#[test]
fn rewrite_in_a_tree_has_neither_size_nor_time() {
    let entry = StatusEntry { item: tree("x", TreeChange::Rewrite), metadata: None };
    assert_eq!(
        entry.assemble(),
        Row {
            path: "x".to_string(),
            status: StatusDto::Renamed,
            family: RecordFamily::TreeIndex,
            extension: "".to_string(),
            size: None,
            modified_at: None,
        }
    );
}

#[test]
fn tree_record_ignores_an_entry_handed_in() {
    let entry = StatusEntry {
        item: tree("docs/guide.md", TreeChange::Modification),
        metadata: Some(FileMetadata { len: 7, modified: Some(9) }),
    };
    let row = entry.assemble();
    assert_eq!(row.size, None);
    assert_eq!(row.modified_at, None);
    assert_eq!(row.extension, "md");
    assert_eq!(row.family, RecordFamily::TreeIndex);
    assert_eq!(row.status, StatusDto::Modified);
}

#[test]
fn worktree_record_without_an_entry_keeps_its_row() {
    let entry = StatusEntry {
        item: worktree("gone/file.bin", Some(WorktreeSummary::Removed)),
        metadata: None,
    };
    assert_eq!(
        entry.assemble(),
        Row {
            path: "gone/file.bin".to_string(),
            status: StatusDto::Removed,
            family: RecordFamily::IndexWorktree,
            extension: "bin".to_string(),
            size: None,
            modified_at: None,
        }
    );
}

#[test]
fn unreadable_modification_time_nulls_the_time_only() {
    let entry = StatusEntry {
        item: worktree("a.txt", Some(WorktreeSummary::Modified)),
        metadata: Some(FileMetadata { len: 0, modified: None }),
    };
    let row = entry.assemble();
    assert_eq!(row.size, Some(0));
    assert_eq!(row.modified_at, None);
}

#[test]
fn size_is_the_full_range_of_the_column() {
    let entry = StatusEntry {
        item: worktree("big", None),
        metadata: Some(FileMetadata { len: u64::MAX, modified: Some(0) }),
    };
    let row = entry.assemble();
    assert_eq!(row.size, Some(u64::MAX));
    assert_eq!(row.modified_at, Some(0));
}

#[test]
fn epoch_seconds_keeps_counts_in_range() {
    assert_eq!(epoch_seconds(0), 0);
    assert_eq!(epoch_seconds(42), 42);
    assert_eq!(epoch_seconds(1_700_000_000), 1_700_000_000);
    assert_eq!(epoch_seconds(0x7fff_ffff_ffff_ffff), i64::MAX);
}

#[test]
fn epoch_seconds_wraps_counts_out_of_range() {
    assert_eq!(epoch_seconds(0x8000_0000_0000_0000), i64::MIN);
    assert_eq!(epoch_seconds(0x8000_0000_0000_0001), i64::MIN + 1);
    assert_eq!(epoch_seconds(u64::MAX), -1);
    let samples: Vec<u64> = vec![0, 1, 1 << 40, (1 << 63) - 1, 1 << 63, (1 << 63) + 5, u64::MAX];
    for seconds in samples {
        assert_eq!(epoch_seconds(seconds), seconds as i64);
    }
}

#[test]
fn extension_of_a_row_does_not_depend_on_the_family() {
    let in_worktree = StatusEntry { item: worktree("p/q.tar.gz", None), metadata: None };
    let in_tree = StatusEntry { item: tree("p/q.tar.gz", TreeChange::Addition), metadata: None };
    assert_eq!(in_worktree.assemble().extension, "gz");
    assert_eq!(in_tree.assemble().extension, "gz");
}
