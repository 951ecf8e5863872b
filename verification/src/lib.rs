//! Encodes the change status of a version-controlled working tree as one
//! columnar record batch in the Arrow IPC streaming format.
//!
//! A status provider reports change records of two families. Each record
//! becomes one row of six columns: its path, its status and its family, both
//! dictionary-encoded, the extension of its path, and the size and the
//! modification time of the filesystem entry at the path, where the record
//! has one. The rows keep the order of the records.

pub mod columns;
pub mod dictionary;
pub mod extension;
pub mod row;
pub mod schema;
pub mod status;
pub mod stream;
pub mod table;
pub mod text;
pub mod writer;

pub use row::FileMetadata;
pub use row::Row;
pub use row::StatusEntry;
pub use status::RecordFamily;
pub use status::StatusDto;
pub use status::StatusItem;
pub use status::StatusItemDto;
pub use status::TreeChange;
pub use status::WorktreeSummary;
pub use writer::get_arrow_schema;
pub use writer::status2arrow_ipc_stream_writer;
pub use writer::EncodeError;
