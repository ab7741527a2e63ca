//! A plain-value model of one stored file's metadata and payload, as the
//! storage collaborator hands it out: the adapter reads the file name, the
//! MIME type, the file size and the optional expiration time, and takes the
//! payload exactly once.

use vstd::prelude::*;

verus! {

/// The payload of a stored file: either fully resident bytes, or a lazily
/// readable byte source that the adapter never buffers. The source itself
/// lives outside this crate; here only the choice of shape is recorded,
/// since the headers depend on nothing else.
pub enum FileData {
    /// File content fully resident in memory.
    Buffer(Vec<u8>),
    /// File content to be read lazily from the storage backend.
    Stream,
}

/// One stored file's metadata together with its payload. Textual metadata
/// is carried as UTF-8 bytes; the expiration time, present only for
/// temporary files, as a millisecond timestamp.
pub struct StoredFileHandle {
    /// The stored file name; may be empty.
    pub file_name: Vec<u8>,
    /// The canonical string form of the file's MIME type, as UTF-8 bytes.
    pub mime_type: Vec<u8>,
    /// The total size of the file in bytes, known up front even when the
    /// payload is streamed.
    pub file_size: u64,
    /// The instant the file expires, in milliseconds; present iff the file
    /// is temporary.
    pub expiration_time: Option<i64>,
    /// The payload, taken exactly once when the response is built.
    pub file_data: FileData,
}

} // verus!
