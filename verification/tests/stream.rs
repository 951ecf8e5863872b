use std::io::Cursor;
use std::sync::Arc;

use arrow::array::Array;
use arrow::array::ArrayRef;
use arrow::array::DictionaryArray;
use arrow::array::StringArray;
use arrow::array::StringBuilder;
use arrow::array::TimestampSecondArray;
use arrow::array::TimestampSecondBuilder;
use arrow::array::UInt64Array;
use arrow::array::UInt64Builder;
use arrow::datatypes::DataType;
use arrow::datatypes::Field;
use arrow::datatypes::Int32Type;
use arrow::datatypes::Schema;
use arrow::datatypes::TimeUnit;
use arrow::error::ArrowError;
use arrow::ipc::reader::StreamReader;
use arrow::ipc::writer::StreamWriter;
use arrow::record_batch::RecordBatch;
use rs_git_status2arrow_ipc_stream::get_arrow_schema;
use rs_git_status2arrow_ipc_stream::status2arrow_ipc_stream_writer;
use rs_git_status2arrow_ipc_stream::writer::deliver;
use rs_git_status2arrow_ipc_stream::writer::paths_fit;
use rs_git_status2arrow_ipc_stream::EncodeError;
use rs_git_status2arrow_ipc_stream::FileMetadata;
use rs_git_status2arrow_ipc_stream::StatusEntry;
use rs_git_status2arrow_ipc_stream::StatusItem;
use rs_git_status2arrow_ipc_stream::TreeChange;
use rs_git_status2arrow_ipc_stream::WorktreeSummary;

const END_OF_STREAM: [u8; 8] = [0xff, 0xff, 0xff, 0xff, 0, 0, 0, 0];

fn worktree(
    path: &str,
    summary: Option<WorktreeSummary>,
    metadata: Option<FileMetadata>,
) -> StatusEntry {
    StatusEntry {
        item: StatusItem::IndexWorktree { rela_path: path.to_string(), summary },
        metadata,
    }
}

fn tree(path: &str, change: TreeChange) -> StatusEntry {
    StatusEntry {
        item: StatusItem::TreeIndex { location: path.to_string(), change },
        metadata: None,
    }
}

fn found(len: u64, modified: Option<u64>) -> Option<FileMetadata> {
    Some(FileMetadata { len, modified })
}

fn encode(items: &[StatusEntry]) -> Vec<u8> {
    let mut sink: Vec<u8> = Vec::new();
    status2arrow_ipc_stream_writer(items, &mut sink).unwrap();
    sink
}

fn decode(stream: &[u8]) -> (Arc<Schema>, Vec<RecordBatch>) {
    let reader = StreamReader::try_new(Cursor::new(stream.to_vec()), None).unwrap();
    let schema = reader.schema();
    let mut batches: Vec<RecordBatch> = Vec::new();
    for batch in reader {
        batches.push(batch.unwrap());
    }
    (schema, batches)
}

type Tuple = (String, String, String, String, Option<u64>, Option<i64>);

fn labels_of(column: &dyn Array) -> Vec<String> {
    let dictionary = column.as_any().downcast_ref::<DictionaryArray<Int32Type>>().unwrap();
    let values = dictionary.values().as_any().downcast_ref::<StringArray>().unwrap();
    let mut labels: Vec<String> = Vec::new();
    for row in 0..dictionary.len() {
        assert!(dictionary.keys().is_valid(row));
        let key = dictionary.keys().value(row) as usize;
        labels.push(values.value(key).to_string());
    }
    labels
}

fn dictionary_of(column: &dyn Array) -> (Vec<i32>, Vec<String>) {
    let dictionary = column.as_any().downcast_ref::<DictionaryArray<Int32Type>>().unwrap();
    let values = dictionary.values().as_any().downcast_ref::<StringArray>().unwrap();
    let keys: Vec<i32> = dictionary.keys().values().iter().copied().collect();
    let entries: Vec<String> = (0..values.len()).map(|at| values.value(at).to_string()).collect();
    (keys, entries)
}

fn tuples_of(batch: &RecordBatch) -> Vec<Tuple> {
    let paths = batch.column(0).as_any().downcast_ref::<StringArray>().unwrap();
    let statuses = labels_of(batch.column(1).as_ref());
    let families = labels_of(batch.column(2).as_ref());
    let extensions = batch.column(3).as_any().downcast_ref::<StringArray>().unwrap();
    let sizes = batch.column(4).as_any().downcast_ref::<UInt64Array>().unwrap();
    let times = batch.column(5).as_any().downcast_ref::<TimestampSecondArray>().unwrap();
    let mut tuples: Vec<Tuple> = Vec::new();
    for row in 0..batch.num_rows() {
        assert!(paths.is_valid(row));
        assert!(extensions.is_valid(row));
        tuples.push((
            paths.value(row).to_string(),
            statuses[row].clone(),
            families[row].clone(),
            extensions.value(row).to_string(),
            if sizes.is_valid(row) { Some(sizes.value(row)) } else { None },
            if times.is_valid(row) { Some(times.value(row)) } else { None },
        ));
    }
    tuples
}

fn tuple(
    path: &str,
    status: &str,
    family: &str,
    extension: &str,
    size: Option<u64>,
    time: Option<i64>,
) -> Tuple {
    (
        path.to_string(),
        status.to_string(),
        family.to_string(),
        extension.to_string(),
        size,
        time,
    )
}

fn sample() -> Vec<StatusEntry> {
    vec![
        worktree("a/b.txt", None, found(42, Some(1_700_000_000))),
        tree("x", TreeChange::Rewrite),
        worktree("src/main.rs", Some(WorktreeSummary::Modified), found(1024, None)),
        worktree("gone.md", Some(WorktreeSummary::Removed), None),
        tree("docs/ä.é", TreeChange::Addition),
        worktree("b/.hidden", None, found(0, Some(0))),
        tree("old/name.c", TreeChange::Deletion),
        worktree("a/b.txt", Some(WorktreeSummary::Conflict), found(7, Some(1 << 63))),
    ]
}

#[test]
fn schema_has_six_columns_in_wire_order() {
    let dictionary = DataType::Dictionary(Box::new(DataType::Int32), Box::new(DataType::Utf8));
    let expected = Schema::new(vec![
        Field::new("path", DataType::Utf8, false),
        Field::new("status", dictionary.clone(), false),
        Field::new("item_type", dictionary, false),
        Field::new("extension", DataType::Utf8, true),
        Field::new("size", DataType::UInt64, true),
        Field::new("last_modification_time", DataType::Timestamp(TimeUnit::Second, None), true),
    ]);
    assert_eq!(get_arrow_schema(), expected);
    assert!(get_arrow_schema().metadata().is_empty());
}

#[test]
fn empty_input_gives_schema_empty_batch_and_terminator() {
    let stream = encode(&[]);
    assert!(stream.len() > 8);
    assert_eq!(&stream[stream.len() - 8..], &END_OF_STREAM);
    assert_eq!(&stream[..4], &[0xff, 0xff, 0xff, 0xff]);
    let (schema, batches) = decode(&stream);
    assert_eq!(schema.as_ref(), &get_arrow_schema());
    assert_eq!(batches.len(), 1);
    assert_eq!(batches[0].num_rows(), 0);
    assert_eq!(batches[0].num_columns(), 6);
    assert_eq!(tuples_of(&batches[0]), Vec::<Tuple>::new());
}

#[test]
fn stream_decodes_to_the_rows_it_was_built_from() {
    let stream = encode(&sample());
    let (schema, batches) = decode(&stream);
    assert_eq!(schema.as_ref(), &get_arrow_schema());
    assert_eq!(batches.len(), 1);
    assert_eq!(batches[0].schema().as_ref(), &get_arrow_schema());
    assert_eq!(
        tuples_of(&batches[0]),
        vec![
            tuple("a/b.txt", "Untracked", "IndexWorktree", "txt", Some(42), Some(1_700_000_000)),
            tuple("x", "Renamed", "TreeIndex", "", None, None),
            tuple("src/main.rs", "Modified", "IndexWorktree", "rs", Some(1024), None),
            tuple("gone.md", "Removed", "IndexWorktree", "md", None, None),
            tuple("docs/ä.é", "Added", "TreeIndex", "é", None, None),
            tuple("b/.hidden", "Untracked", "IndexWorktree", "hidden", Some(0), Some(0)),
            tuple("old/name.c", "Removed", "TreeIndex", "c", None, None),
            tuple("a/b.txt", "Conflict", "IndexWorktree", "txt", Some(7), Some(i64::MIN)),
        ]
    );
}

#[test]
fn stream_ends_with_the_end_of_stream_marker() {
    let stream = encode(&sample());
    assert_eq!(&stream[stream.len() - 8..], &END_OF_STREAM);
}

#[test]
fn untracked_file_round_trips_with_size_and_time() {
    let items = vec![worktree("a/b.txt", None, found(42, Some(1_234_567_890)))];
    let (_, batches) = decode(&encode(&items));
    assert_eq!(
        tuples_of(&batches[0]),
        vec![tuple("a/b.txt", "Untracked", "IndexWorktree", "txt", Some(42), Some(1_234_567_890))]
    );
}

#[test]
fn tree_rewrite_round_trips_with_nulls() {
    let items = vec![tree("x", TreeChange::Rewrite)];
    let (_, batches) = decode(&encode(&items));
    assert_eq!(batches[0].num_rows(), 1);
    assert_eq!(
        tuples_of(&batches[0]),
        vec![tuple("x", "Renamed", "TreeIndex", "", None, None)]
    );
    assert_eq!(batches[0].column(3).null_count(), 0);
    assert_eq!(batches[0].column(4).null_count(), 1);
    assert_eq!(batches[0].column(5).null_count(), 1);
}

#[test]
fn there_is_one_row_for_each_record() {
    for count in [0usize, 1, 2, 9, 100, 1000] {
        let mut items: Vec<StatusEntry> = Vec::new();
        for at in 0..count {
            items.push(tree(&format!("dir/file{}.dat", at), TreeChange::Modification));
        }
        let (_, batches) = decode(&encode(&items));
        assert_eq!(batches.len(), 1);
        assert_eq!(batches[0].num_rows(), count);
        for column in batches[0].columns() {
            assert_eq!(column.len(), count);
        }
    }
}

#[test]
fn rows_keep_the_order_of_the_records() {
    let names = vec!["m", "z", "a", "m", "b/c", "a", "0"];
    let mut items: Vec<StatusEntry> = Vec::new();
    for name in &names {
        items.push(worktree(name, None, None));
    }
    let (_, batches) = decode(&encode(&items));
    let paths: Vec<String> = tuples_of(&batches[0]).into_iter().map(|row| row.0).collect();
    assert_eq!(paths, names);
}

#[test]
fn duplicate_records_are_kept() {
    let items = vec![
        tree("same", TreeChange::Addition),
        tree("same", TreeChange::Addition),
        tree("same", TreeChange::Addition),
    ];
    let (_, batches) = decode(&encode(&items));
    assert_eq!(
        tuples_of(&batches[0]),
        vec![
            tuple("same", "Added", "TreeIndex", "", None, None),
            tuple("same", "Added", "TreeIndex", "", None, None),
            tuple("same", "Added", "TreeIndex", "", None, None),
        ]
    );
}

#[test]
fn dictionaries_list_labels_where_first_seen() {
    let (_, batches) = decode(&encode(&sample()));
    let (status_keys, status_entries) = dictionary_of(batches[0].column(1).as_ref());
    assert_eq!(
        status_entries,
        vec!["Untracked", "Renamed", "Modified", "Removed", "Added", "Conflict"]
    );
    assert_eq!(status_keys, vec![0, 1, 2, 3, 4, 0, 3, 5]);
    let (family_keys, family_entries) = dictionary_of(batches[0].column(2).as_ref());
    assert_eq!(family_entries, vec!["IndexWorktree", "TreeIndex"]);
    assert_eq!(family_keys, vec![0, 1, 0, 0, 1, 0, 1, 0]);
}

#[test]
fn dictionaries_stay_small_however_many_rows() {
    let summaries = vec![
        None,
        Some(WorktreeSummary::Removed),
        Some(WorktreeSummary::Added),
        Some(WorktreeSummary::Modified),
        Some(WorktreeSummary::TypeChange),
        Some(WorktreeSummary::Renamed),
        Some(WorktreeSummary::Copied),
        Some(WorktreeSummary::IntentToAdd),
        Some(WorktreeSummary::Conflict),
    ];
    let changes = vec![
        TreeChange::Addition,
        TreeChange::Deletion,
        TreeChange::Modification,
        TreeChange::Rewrite,
    ];
    let mut items: Vec<StatusEntry> = Vec::new();
    for round in 0..500usize {
        for summary in &summaries {
            items.push(worktree(&format!("w{}", round), *summary, None));
        }
        for change in &changes {
            items.push(tree(&format!("t{}", round), *change));
        }
    }
    let (_, batches) = decode(&encode(&items));
    assert_eq!(batches[0].num_rows(), 6500);
    let (_, status_entries) = dictionary_of(batches[0].column(1).as_ref());
    let (_, family_entries) = dictionary_of(batches[0].column(2).as_ref());
    assert_eq!(status_entries.len(), 9);
    assert_eq!(family_entries.len(), 2);
    assert_eq!(
        status_entries,
        vec![
            "Untracked",
            "Removed",
            "Added",
            "Modified",
            "TypeChange",
            "Renamed",
            "Copied",
            "IntentToAdd",
            "Conflict"
        ]
    );
}

#[test]
fn dictionary_of_one_family_has_one_entry() {
    let items = vec![tree("a", TreeChange::Addition), tree("b", TreeChange::Addition)];
    let (_, batches) = decode(&encode(&items));
    let (status_keys, status_entries) = dictionary_of(batches[0].column(1).as_ref());
    let (family_keys, family_entries) = dictionary_of(batches[0].column(2).as_ref());
    assert_eq!(status_entries, vec!["Added"]);
    assert_eq!(status_keys, vec![0, 0]);
    assert_eq!(family_entries, vec!["TreeIndex"]);
    assert_eq!(family_keys, vec![0, 0]);
}

#[test]
fn stream_is_appended_to_what_the_sink_holds() {
    let alone = encode(&sample());
    let mut sink: Vec<u8> = vec![1, 2, 3];
    status2arrow_ipc_stream_writer(&sample(), &mut sink).unwrap();
    assert_eq!(&sink[..3], &[1, 2, 3]);
    assert_eq!(&sink[3..], &alone[..]);
}

#[test]
fn same_records_give_the_same_bytes() {
    assert_eq!(encode(&sample()), encode(&sample()));
    assert_eq!(encode(&[]), encode(&[]));
    assert_ne!(encode(&sample()), encode(&[]));
}

#[test]
fn stream_begins_with_the_schema_message_of_any_stream() {
    let empty = encode(&[]);
    let full = encode(&sample());
    let shared = empty.iter().zip(full.iter()).take_while(|(a, b)| a == b).count();
    assert!(shared > 8);
}

#[test]
fn null_sizes_and_times_are_nulls_not_zeros() {
    let items = vec![
        worktree("zero", None, found(0, Some(0))),
        worktree("none", None, None),
        worktree("half", None, found(5, None)),
    ];
    let (_, batches) = decode(&encode(&items));
    let sizes = batches[0].column(4).as_any().downcast_ref::<UInt64Array>().unwrap();
    let times = batches[0].column(5).as_any().downcast_ref::<TimestampSecondArray>().unwrap();
    assert_eq!(sizes.iter().collect::<Vec<Option<u64>>>(), vec![Some(0), None, Some(5)]);
    assert_eq!(times.iter().collect::<Vec<Option<i64>>>(), vec![Some(0), None, None]);
}

#[test]
fn deliver_appends_a_stream_whole() {
    let mut sink: Vec<u8> = vec![9, 9];
    let result = deliver(Ok(vec![1, 2, 3]), &mut sink);
    assert!(result.is_ok());
    assert_eq!(sink, vec![9, 9, 1, 2, 3]);
    let result = deliver(Ok(Vec::new()), &mut sink);
    assert!(result.is_ok());
    assert_eq!(sink, vec![9, 9, 1, 2, 3]);
}

#[test]
fn deliver_passes_an_error_on_and_leaves_the_sink() {
    let mut sink: Vec<u8> = vec![9, 9];
    let result = deliver(Err(ArrowError::IpcError("closed".to_string())), &mut sink);
    match result {
        Err(EncodeError::Stream(ArrowError::IpcError(message))) => assert_eq!(message, "closed"),
        other => panic!("unexpected result {:?}", other),
    }
    assert_eq!(sink, vec![9, 9]);
}

#[test]
fn paths_within_the_offset_range_fit() {
    assert!(paths_fit(&[]));
    assert!(paths_fit(&sample()));
}

#[test]
fn paths_beyond_the_offset_range_overflow() {
    let chunk = "a".repeat(1 << 26);
    let mut items: Vec<StatusEntry> = Vec::new();
    for _ in 0..31 {
        items.push(tree(&chunk, TreeChange::Addition));
    }
    items.push(tree(&chunk[1..], TreeChange::Addition));
    assert!(paths_fit(&items));
    items.push(tree("b", TreeChange::Addition));
    assert!(!paths_fit(&items));
    let mut sink: Vec<u8> = vec![1, 2, 3];
    let result = status2arrow_ipc_stream_writer(&items, &mut sink);
    assert!(matches!(result, Err(EncodeError::ColumnOverflow)));
    assert_eq!(sink, vec![1, 2, 3]);
}

#[test]
fn fit_counts_bytes_not_characters() {
    let chunk = "é".repeat(1 << 25);
    assert_eq!(chunk.len(), 1 << 26);
    let mut items: Vec<StatusEntry> = Vec::new();
    for _ in 0..31 {
        items.push(worktree(&chunk, None, None));
    }
    assert!(paths_fit(&items));
    items.push(worktree(&chunk, None, None));
    assert!(!paths_fit(&items));
}

#[test]
fn stream_is_what_arrow_writes_for_the_same_columns() {
    let rows = vec![
        tuple("a/b.txt", "Untracked", "IndexWorktree", "txt", Some(42), Some(1_700_000_000)),
        tuple("x", "Renamed", "TreeIndex", "", None, None),
        tuple("src/main.rs", "Modified", "IndexWorktree", "rs", Some(1024), None),
        tuple("gone.md", "Removed", "IndexWorktree", "md", None, None),
        tuple("docs/ä.é", "Added", "TreeIndex", "é", None, None),
        tuple("b/.hidden", "Untracked", "IndexWorktree", "hidden", Some(0), Some(0)),
        tuple("old/name.c", "Removed", "TreeIndex", "c", None, None),
        tuple("a/b.txt", "Conflict", "IndexWorktree", "txt", Some(7), Some(i64::MIN)),
    ];
    let mut paths = StringBuilder::new();
    let mut extensions = StringBuilder::new();
    let mut sizes = UInt64Builder::new();
    let mut times = TimestampSecondBuilder::new();
    for row in &rows {
        paths.append_value(&row.0);
        extensions.append_value(&row.3);
        sizes.append_option(row.4);
        times.append_option(row.5);
    }
    let statuses: DictionaryArray<Int32Type> = rows.iter().map(|row| row.1.as_str()).collect();
    let families: DictionaryArray<Int32Type> = rows.iter().map(|row| row.2.as_str()).collect();
    let schema = get_arrow_schema();
    let batch = RecordBatch::try_new(
        Arc::new(schema.clone()),
        vec![
            Arc::new(paths.finish()) as ArrayRef,
            Arc::new(statuses) as ArrayRef,
            Arc::new(families) as ArrayRef,
            Arc::new(extensions.finish()) as ArrayRef,
            Arc::new(sizes.finish()) as ArrayRef,
            Arc::new(times.finish()) as ArrayRef,
        ],
    )
    .unwrap();
    let mut direct: Vec<u8> = Vec::new();
    {
        let mut writer = StreamWriter::try_new(&mut direct, &schema).unwrap();
        writer.write(&batch).unwrap();
        writer.finish().unwrap();
    }
    assert_eq!(encode(&sample()), direct);
}

#[test]
fn encoding_succeeds_exactly_where_the_paths_fit() {
    let mut sink: Vec<u8> = Vec::new();
    assert!(paths_fit(&[]));
    assert!(status2arrow_ipc_stream_writer(&[], &mut sink).is_ok());
    assert!(paths_fit(&sample()));
    assert!(status2arrow_ipc_stream_writer(&sample(), &mut sink).is_ok());
    let mut many: Vec<StatusEntry> = Vec::new();
    for at in 0..20_000usize {
        many.push(worktree(&format!("deep/{}/file.{}", at, at % 7), None, found(at as u64, None)));
    }
    assert!(paths_fit(&many));
    assert!(status2arrow_ipc_stream_writer(&many, &mut sink).is_ok());
    let (_, batches) = decode(&encode(&many));
    assert_eq!(batches[0].num_rows(), 20_000);
}
